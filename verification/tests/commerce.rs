use rv_backend::product::{purchase_fits, purchase_request_fits};
use rv_backend::error::{AppError, InternalError};
use rv_backend::history::{DepositHistoryData, DepositHistoryRow, PurchaseHistoryData, PurchaseHistoryRow, UserResponse};
use rv_backend::product::{
    choose_returned_purchase, plan_purchase, purchase_product, return_on_person, PurchaseCandidate, return_on_price, return_on_purchase,
    return_on_saldo_history, ItemHistoryRecord, PriceRecord, Product, ProductRow, PurchaseStep,
    ReturnPlan, ReturnStep, SaldoHistoryRecord,
};
use rv_backend::user::{PersonRecord, PrivacyLevel, Role, User};

fn price(count: i32, sellprice: i32) -> PriceRecord {
    PriceRecord { priceid: 11, itemid: 22, count, sellprice }
}

fn person(saldo: i32) -> PersonRecord {
    PersonRecord {
        userid: 5,
        roleid: 2,
        name: "u".to_string(),
        univident: "u@x".to_string(),
        pass: String::new(),
        saldo,
        realname: Some("U Ser".to_string()),
        rfid: None,
        privacy_level: 0,
    }
}

#[test]
fn product_from_row_with_and_without_category() {
    let row = ProductRow {
        barcode: "6415600025036".to_string(),
        descr: "Coffee".to_string(),
        pgrpid: Some(3),
        pgrdescr: Some("Drinks".to_string()),
        count: 12,
        buyprice: 80,
        sellprice: 120,
    };
    let p = Product::from_row(row.clone());
    assert_eq!(p.barcode, "6415600025036");
    assert_eq!(p.name, "Coffee");
    assert_eq!(p.category.id, 3);
    assert_eq!(p.category.description, "Drinks");
    assert_eq!((p.buy_price, p.sell_price, p.stock), (80, 120, 12));
    let mut bare = row;
    bare.pgrpid = None;
    bare.pgrdescr = None;
    let p = Product::from_row(bare);
    assert_eq!(p.category.id, 0);
    assert_eq!(p.category.description, "DEFAULT GROUP, NO DEFINITION");
}

#[test]
fn purchase_plan_records_each_unit() {
    let plan = plan_purchase("123", 5, 3, Some(price(10, 150)), Some(person(1000))).unwrap();
    assert_eq!((plan.price_id, plan.item_id, plan.user_id, plan.sell_price), (11, 22, 5, 150));
    assert_eq!(plan.new_stock, 7);
    assert_eq!(plan.new_balance, 550);
    assert_eq!(
        plan.steps,
        vec![
            PurchaseStep { stock_after: 9, balance_after: 850, difference: -150 },
            PurchaseStep { stock_after: 8, balance_after: 700, difference: -150 },
            PurchaseStep { stock_after: 7, balance_after: 550, difference: -150 },
        ]
    );
    assert_eq!(plan.steps.last().unwrap().balance_after, plan.new_balance);
}

#[test]
fn purchase_plan_of_no_units() {
    let plan = plan_purchase("123", 5, 0, Some(price(10, 150)), Some(person(1000))).unwrap();
    assert!(plan.steps.is_empty());
    assert_eq!((plan.new_stock, plan.new_balance), (10, 1000));
    let plan = plan_purchase("123", 5, -2, Some(price(10, 150)), Some(person(1000))).unwrap();
    assert!(plan.steps.is_empty());
    assert_eq!((plan.new_stock, plan.new_balance), (12, 1300));
}

#[test]
fn purchase_plan_can_go_negative() {
    let plan = plan_purchase("123", 5, 2, Some(price(1, 100)), Some(person(50))).unwrap();
    assert_eq!((plan.new_stock, plan.new_balance), (-1, -150));
}

#[test]
fn purchase_plan_errors() {
    assert_eq!(
        plan_purchase("999", 5, 1, None, Some(person(10))),
        Err(AppError::Internal(InternalError::PriceNotFound("999".to_string())))
    );
    assert_eq!(
        plan_purchase("999", 5, 1, Some(price(1, 1)), None),
        Err(AppError::Internal(InternalError::UserNotFound(5)))
    );
    assert_eq!(
        plan_purchase("999", 5, 1, None, None),
        Err(AppError::Internal(InternalError::PriceNotFound("999".to_string())))
    );
}

#[test]
fn purchase_funds_rule() {
    assert_eq!(purchase_product(1000, 150, 10, 3), Ok((550, 7)));
    assert_eq!(purchase_product(301, 150, 10, 3), Ok((-149, 7)));
    assert_eq!(purchase_product(300, 150, 10, 3), Err(AppError::InsufficientFunds));
    assert_eq!(purchase_product(1, 150, 10, 1), Ok((-149, 9)));
    assert_eq!(purchase_product(0, 150, 10, 1), Err(AppError::InsufficientFunds));
    assert_eq!(purchase_product(-500, 0, 4, 2), Ok((-500, 2)));
    assert_eq!(purchase_product(-500, -10, 4, 2), Ok((-480, 2)));
}

#[test]
fn return_steps() {
    assert_eq!(return_on_price(&None), ReturnStep::Finish(Ok(false)));
    assert_eq!(return_on_price(&Some(price(4, 100))), ReturnStep::FindRecentPurchase { item_id: 22 });
    assert_eq!(return_on_purchase(&None), ReturnStep::Finish(Ok(false)));
    assert_eq!(
        return_on_purchase(&Some(ItemHistoryRecord { itemhistid: 70, saldhistid: None })),
        ReturnStep::Finish(Err(AppError::Internal(InternalError::SaldoHistoryIdMissing)))
    );
    assert_eq!(
        return_on_purchase(&Some(ItemHistoryRecord { itemhistid: 70, saldhistid: Some(80) })),
        ReturnStep::FindSaldoHistory { saldo_history_id: 80 }
    );
    assert_eq!(
        return_on_saldo_history(80, &None),
        ReturnStep::Finish(Err(AppError::Internal(InternalError::SaldoHistoryNotFound(80))))
    );
    assert_eq!(
        return_on_saldo_history(80, &Some(SaldoHistoryRecord { saldhistid: 80, difference: -100 })),
        ReturnStep::FindPerson
    );
    let purchase = ItemHistoryRecord { itemhistid: 70, saldhistid: Some(80) };
    let saldo = SaldoHistoryRecord { saldhistid: 80, difference: -100 };
    assert_eq!(
        return_on_person(5, &price(4, 100), &purchase, &saldo, &None),
        ReturnStep::Finish(Err(AppError::Internal(InternalError::UserNotFound(5))))
    );
    assert_eq!(
        return_on_person(5, &price(4, 100), &purchase, &saldo, &Some(person(900))),
        ReturnStep::Apply(ReturnPlan {
            user_id: 5,
            price_id: 11,
            item_id: 22,
            stock_now: 5,
            refund: 100,
            new_balance: 1000,
            returned_purchase_id: 70,
        })
    );
}

#[test]
fn return_undoes_single_purchase() {
    let before_price = price(10, 250);
    let before_person = person(1000);
    let plan = plan_purchase("1", 5, 1, Some(before_price.clone()), Some(before_person.clone())).unwrap();
    let after_price = PriceRecord { count: plan.new_stock, ..before_price.clone() };
    let after_person = PersonRecord { saldo: plan.new_balance, ..before_person.clone() };
    let purchase = ItemHistoryRecord { itemhistid: 1, saldhistid: Some(2) };
    let saldo = SaldoHistoryRecord { saldhistid: 2, difference: plan.steps[0].difference };
    match return_on_person(5, &after_price, &purchase, &saldo, &Some(after_person)) {
        ReturnStep::Apply(r) => {
            assert_eq!(r.stock_now, before_price.count);
            assert_eq!(r.new_balance, before_person.saldo);
            assert_eq!(r.refund, 250);
        },
        other => panic!("unexpected step {:?}", other),
    }
}

#[test]
fn user_response_shows_account() {
    let mut u = User::from_record(person(77), None);
    u.role = Role::Admin;
    u.privacy_level = PrivacyLevel::HideAll;
    let r = UserResponse::from_user(u);
    assert_eq!(r.user_id, 5);
    assert_eq!(r.username, "u");
    assert_eq!(r.full_name, "U Ser");
    assert_eq!(r.email, "u@x");
    assert_eq!(r.money_balance, 77);
    assert_eq!(r.role, "Admin");
    assert_eq!(r.privacy_level, 2);
}

#[test]
fn purchase_history_row_shown() {
    let d = PurchaseHistoryData::from_row(PurchaseHistoryRow {
        purchase_id: 9,
        time: 1_700_000_000_000_000,
        price: 120,
        returned: true,
        balance_after: 880,
        barcode: "b".to_string(),
        name: "Tea".to_string(),
        sell_price: 120,
        stock: 4,
        category_id: 2,
        category_description: "Drinks".to_string(),
        userid: 5,
        username: "u".to_string(),
        realname: "U Ser".to_string(),
        univident: "u@x".to_string(),
        roleid: 7,
        privacylevel: 1,
    });
    assert_eq!((d.id, d.time, d.price, d.returned), (9, 1_700_000_000_000_000, 120, true));
    assert_eq!(d.product.buy_price, 0);
    assert_eq!(d.product.category.description, "Drinks");
    assert_eq!((d.sell_price, d.stock, d.balance_after), (120, 4, 880));
    assert_eq!(d.user.money_balance, 0);
    assert_eq!(d.user.role, "Inactive");
    assert_eq!(d.user.privacy_level, 1);
}

#[test]
fn deposit_history_row_shown() {
    let d = DepositHistoryData::from_row(DepositHistoryRow {
        pershistid: 3,
        time: 5,
        difference: 2000,
        saldo: 2500,
        userid: 5,
        name: "u".to_string(),
        realname: "U Ser".to_string(),
        univident: "u@x".to_string(),
        current_saldo: 1200,
        roleid: 1,
        actionid: 26,
        privacylevel: 0,
    });
    assert_eq!((d.deposit_id, d.time, d.amount, d.balance_after, d.action_id), (3, 5, 2000, 2500, 26));
    assert_eq!(d.user.money_balance, 1200);
    assert_eq!(d.user.role, "Admin");
    assert_eq!(d.user.username, "u");
}

#[test]
fn purchase_range_check() {
    assert!(purchase_fits(10, 1000, 150, 3));
    assert!(!purchase_fits(i32::MIN, 0, 1, 1));
    assert!(!purchase_fits(10, 0, i32::MAX, 2));
    assert!(!purchase_fits(10, i32::MIN, 1, 1));
    assert!(!purchase_fits(10, -1, i32::MIN, 1));
    assert!(purchase_fits(10, -1, i32::MIN, 0));
}


fn candidate(id: i32, userid: i32, itemid: i32, time: i64) -> PurchaseCandidate {
    PurchaseCandidate { itemhistid: id, actionid: 5, userid, itemid, time, saldhistid: Some(100 + id) }
}

#[test]
fn return_chooses_latest_own_unreturned_purchase() {
    let now: i64 = 1_000_000_000_000;
    let cands = vec![
        candidate(1, 5, 22, now - 200_000_000),
        candidate(2, 5, 22, now - 10_000_000),
        candidate(3, 6, 22, now - 1_000_000),
        candidate(4, 5, 23, now - 1_000_000),
        candidate(5, 5, 22, now - 300_000_000),
        PurchaseCandidate { actionid: 28, ..candidate(6, 5, 22, now - 5_000_000) },
    ];
    assert_eq!(
        choose_returned_purchase(&cands, &vec![], 5, 22, now),
        Some(ItemHistoryRecord { itemhistid: 2, saldhistid: Some(102) })
    );
    assert_eq!(
        choose_returned_purchase(&cands, &vec![2], 5, 22, now),
        Some(ItemHistoryRecord { itemhistid: 1, saldhistid: Some(101) })
    );
    assert_eq!(choose_returned_purchase(&cands, &vec![2, 1], 5, 22, now), None);
    assert_eq!(choose_returned_purchase(&cands, &vec![], 7, 22, now), None);
    assert_eq!(choose_returned_purchase(&vec![], &vec![], 5, 22, now), None);
}

#[test]
fn return_of_equal_times_takes_first_given() {
    let cands = vec![candidate(8, 5, 22, 50), candidate(9, 5, 22, 50)];
    assert_eq!(choose_returned_purchase(&cands, &vec![], 5, 22, 60).map(|h| h.itemhistid), Some(8));
}

#[test]
fn returned_purchase_is_not_chosen_again() {
    let now: i64 = 2_000_000_000_000;
    let cands = vec![candidate(1, 5, 22, now - 1_000)];
    let chosen = choose_returned_purchase(&cands, &vec![], 5, 22, now).unwrap();
    let saldo = SaldoHistoryRecord { saldhistid: 101, difference: -150 };
    let plan = match return_on_person(5, &price(9, 150), &chosen, &saldo, &Some(person(850))) {
        ReturnStep::Apply(p) => p,
        other => panic!("unexpected step {:?}", other),
    };
    assert_eq!(plan.returned_purchase_id, 1);
    assert_eq!(choose_returned_purchase(&cands, &vec![plan.returned_purchase_id], 5, 22, now), None);
}

#[test]
fn purchase_request_range_check() {
    assert!(purchase_request_fits(1000, 150, 10, 3));
    assert!(purchase_request_fits(0, 150, 10, 3));
    assert!(purchase_request_fits(-500, 0, 4, 2));
    assert!(!purchase_request_fits(i32::MAX, 2, 0, i32::MAX));
    assert!(!purchase_request_fits(0, 1, 0, i32::MIN));
    assert!(!purchase_request_fits(i32::MAX, 1, i32::MIN, 1));
    assert!(purchase_request_fits(0, 1, i32::MIN, 1));
    assert!(!purchase_request_fits(i32::MAX, -1, 0, 1));
}
