use vstd::prelude::*;

use crate::actions::{action_code, Actions};
use crate::category::Category;
use crate::error::{AppError, InternalError};
use crate::user::PersonRecord;

verus! {

/// A product on sale, with its current prices and stock.
#[derive(Clone, Debug, PartialEq, Eq)]
pub struct Product {
    pub barcode: String,
    pub name: String,
    pub category: Category,
    pub buy_price: i32,
    pub sell_price: i32,
    pub stock: i32,
}

/// A product as the product query returns it; the category fields are
/// absent where the product has no category.
#[derive(Clone, Debug, PartialEq, Eq)]
pub struct ProductRow {
    pub barcode: String,
    pub descr: String,
    pub pgrpid: Option<i32>,
    pub pgrdescr: Option<String>,
    pub count: i32,
    pub buyprice: i32,
    pub sellprice: i32,
}

/// The category description shown for a product without a category.
pub open spec fn default_category_description() -> Seq<char> {
    "DEFAULT GROUP, NO DEFINITION"@
}

/// Whether a product is the one that a row describes: a missing category
/// becomes category 0 with the default description.
pub open spec fn product_of_row(p: Product, row: ProductRow) -> bool {
    &&& p.barcode == row.barcode
    &&& p.name == row.descr
    &&& p.category.id == (match row.pgrpid { Some(id) => id, None => 0 })
    &&& p.category.description@ == (match row.pgrdescr {
        Some(d) => d@,
        None => default_category_description(),
    })
    &&& p.buy_price == row.buyprice
    &&& p.sell_price == row.sellprice
    &&& p.stock == row.count
}

impl Product {
    /// The product that a row describes.
    pub fn from_row(row: ProductRow) -> (p: Product)
        ensures
            product_of_row(p, row),
    {
        let id = match row.pgrpid {
            Some(id) => id,
            None => 0,
        };
        let description = match row.pgrdescr {
            Some(d) => d,
            None => String::from_str("DEFAULT GROUP, NO DEFINITION"),
        };
        Product {
            barcode: row.barcode,
            name: row.descr,
            category: Category { id, description },
            buy_price: row.buyprice,
            sell_price: row.sellprice,
            stock: row.count,
        }
    }
}

/// One unit bought, as the purchase answer reports it.
#[derive(Clone, Debug, PartialEq, Eq)]
pub struct PurchaseEvent {
    pub id: i32,
    /// The time of the purchase: whole seconds since the epoch.
    pub time_secs: i64,
    /// The time of the purchase: nanoseconds past `time_secs`.
    pub time_nanos: u32,
    pub price: i32,
    pub balance_after: i32,
    pub stock_after: i32,
}

/// The current price row of a product, as far as purchases read it.
#[derive(Clone, Debug, PartialEq, Eq)]
pub struct PriceRecord {
    pub priceid: i32,
    pub itemid: i32,
    pub count: i32,
    pub sellprice: i32,
}

/// The history entries of one unit of a purchase: the stock and balance
/// after it, and the balance change that it records.
#[derive(Clone, Copy, Debug, PartialEq, Eq)]
pub struct PurchaseStep {
    pub stock_after: i32,
    pub balance_after: i32,
    pub difference: i32,
}

/// What buying changes: the new stock of the price row, the new balance of
/// the account, and one history step per unit bought.
#[derive(Clone, Debug, PartialEq, Eq)]
pub struct PurchasePlan {
    pub price_id: i32,
    pub item_id: i32,
    pub user_id: i32,
    pub sell_price: i32,
    pub new_stock: i32,
    pub new_balance: i32,
    pub steps: Vec<PurchaseStep>,
}

/// The number of units that a purchase of `count` records: none where the
/// count is not positive.
pub open spec fn units_bought(count: i32) -> int {
    if count > 0 { count as int } else { 0 }
}

/// Whether a purchase of `count` units at `sell_price` from a stock and a
/// balance stays within the range of the stored integers.
pub open spec fn purchase_in_range(stock: i32, balance: i32, sell_price: i32, count: i32) -> bool {
    &&& i32::MIN <= stock - count <= i32::MAX
    &&& i32::MIN <= count * sell_price <= i32::MAX
    &&& i32::MIN <= balance - count * sell_price <= i32::MAX
    &&& count > 0 ==> sell_price != i32::MIN
}

/// Decides `purchase_in_range`.
pub fn purchase_fits(stock: i32, balance: i32, sell_price: i32, count: i32) -> (r: bool)
    ensures
        r == purchase_in_range(stock, balance, sell_price, count),
{
    let s = stock as i128 - count as i128;
    proof {
        assert(-0x8000_0000 * 0x8000_0000 <= count * sell_price <= 0x8000_0000 * 0x8000_0000) by (nonlinear_arith)
            requires -0x8000_0000 <= count < 0x8000_0000, -0x8000_0000 <= sell_price < 0x8000_0000;
    }
    let c = count as i128 * sell_price as i128;
    let b = balance as i128 - c;
    let lo = i32::MIN as i128;
    let hi = i32::MAX as i128;
    lo <= s && s <= hi && lo <= c && c <= hi && lo <= b && b <= hi && (count <= 0 || sell_price != i32::MIN)
}

/// Whether a plan is what buying `count` units from `price` charges to
/// `person`: the stock falls by the count, the balance by the count times
/// the price, and unit `k` (from 1) leaves the stock `k` and the balance
/// `k` prices lower, each recording a change of minus the price.
pub open spec fn purchase_plan_of(plan: PurchasePlan, user_id: i32, count: i32, price: PriceRecord, person: PersonRecord) -> bool {
    &&& plan.price_id == price.priceid
    &&& plan.item_id == price.itemid
    &&& plan.user_id == user_id
    &&& plan.sell_price == price.sellprice
    &&& plan.new_stock == price.count - count
    &&& plan.new_balance == person.saldo - count * price.sellprice
    &&& plan.steps@.len() == units_bought(count)
    &&& forall|k: int| 0 <= k < plan.steps@.len() ==> {
        &&& (#[trigger] plan.steps@[k]).stock_after == price.count - (k + 1)
        &&& plan.steps@[k].balance_after == person.saldo - (k + 1) * price.sellprice
        &&& plan.steps@[k].difference == -price.sellprice
    }
}

/// Plans a purchase of `count` units of the product with barcode `barcode`
/// by user `user_id`, given the current price row and the account (as
/// looked up). Fails where either is missing, the price row first.
pub fn plan_purchase(
    barcode: &str,
    user_id: i32,
    count: i32,
    price: Option<PriceRecord>,
    person: Option<PersonRecord>,
) -> (r: Result<PurchasePlan, AppError>)
    requires
        price matches Some(p) ==> i32::MIN <= p.count - count <= i32::MAX,
        match (price, person) {
            (Some(p), Some(u)) => purchase_in_range(p.count, u.saldo, p.sellprice, count),
            _ => true,
        },
    ensures
        price is None ==> (r matches Err(AppError::Internal(InternalError::PriceNotFound(b))) && b@ == barcode@),
        price is Some && person is None ==> r == Err::<PurchasePlan, AppError>(AppError::Internal(InternalError::UserNotFound(user_id))),
        r matches Ok(plan) ==> (price matches Some(p) && person matches Some(u) && purchase_plan_of(plan, user_id, count, p, u)),
        price is Some && person is Some ==> r is Ok,
{
    let p = match price {
        Some(p) => p,
        None => return Err(AppError::Internal(InternalError::PriceNotFound(String::from_str(barcode)))),
    };
    let u = match person {
        Some(u) => u,
        None => return Err(AppError::Internal(InternalError::UserNotFound(user_id))),
    };
    let sell_price = p.sellprice;
    let new_stock = p.count - count;
    proof {
        assert(i32::MIN <= count * sell_price <= i32::MAX);
    }
    let new_balance = u.saldo - count * sell_price;
    let mut steps: Vec<PurchaseStep> = Vec::new();
    let mut stock = p.count;
    let mut balance = u.saldo;
    let mut k: i32 = 0;
    while k < count
        invariant
            0 <= k,
            count > 0 ==> k <= count,
            count <= 0 ==> k == 0,
            purchase_in_range(p.count, u.saldo, sell_price, count),
            sell_price == p.sellprice,
            stock == p.count - k,
            balance == u.saldo - k * sell_price,
            steps@.len() == k,
            forall|j: int| 0 <= j < k ==> {
                &&& (#[trigger] steps@[j]).stock_after == p.count - (j + 1)
                &&& steps@[j].balance_after == u.saldo - (j + 1) * sell_price
                &&& steps@[j].difference == -sell_price
            },
        decreases count - k,
    {
        proof {
            assert((k + 1) * sell_price == k * sell_price + sell_price) by (nonlinear_arith);
            if sell_price >= 0 {
                assert(0 <= (k + 1) * sell_price <= count * sell_price) by (nonlinear_arith)
                    requires 0 <= k < count, sell_price >= 0;
            } else {
                assert(count * sell_price <= (k + 1) * sell_price <= 0) by (nonlinear_arith)
                    requires 0 <= k < count, sell_price < 0;
            }
        }
        stock = stock - 1;
        balance = balance - sell_price;
        steps.push(PurchaseStep { stock_after: stock, balance_after: balance, difference: -sell_price });
        k = k + 1;
    }
    Ok(PurchasePlan {
        price_id: p.priceid,
        item_id: p.itemid,
        user_id,
        sell_price,
        new_stock,
        new_balance,
        steps,
    })
}

/// Whether a balance covers a purchase: free or negatively priced
/// products always go, otherwise the balance must exceed the price of all
/// but one of the units.
pub open spec fn purchase_allowed(saldo: i32, sell_price: i32, count: i32) -> bool {
    sell_price <= 0 || saldo > sell_price * (count - 1)
}

/// Whether deciding a purchase request stays within the range of the
/// stored integers: the funds check, and where it passes, the new balance
/// and stock.
pub open spec fn purchase_request_in_range(saldo: i32, sell_price: i32, stock: i32, count: i32) -> bool {
    &&& sell_price > 0 ==> i32::MIN <= count - 1 && i32::MIN <= sell_price * (count - 1) <= i32::MAX
    &&& purchase_allowed(saldo, sell_price, count) ==> {
        &&& i32::MIN <= count * sell_price <= i32::MAX
        &&& i32::MIN <= saldo - count * sell_price <= i32::MAX
        &&& i32::MIN <= stock - count <= i32::MAX
    }
}

/// Decides `purchase_request_in_range`.
pub fn purchase_request_fits(saldo: i32, sell_price: i32, stock: i32, count: i32) -> (r: bool)
    ensures
        r == purchase_request_in_range(saldo, sell_price, stock, count),
{
    proof {
        assert(-0x8000_0000 * 0x8000_0001 <= count * sell_price <= 0x8000_0001 * 0x8000_0000) by (nonlinear_arith)
            requires -0x8000_0000 <= count < 0x8000_0000, -0x8000_0000 <= sell_price < 0x8000_0000;
        assert(-0x8000_0001 * 0x8000_0000 <= sell_price * (count - 1) <= 0x8000_0001 * 0x8000_0000) by (nonlinear_arith)
            requires -0x8000_0000 <= count < 0x8000_0000, -0x8000_0000 <= sell_price < 0x8000_0000;
    }
    let lo = i32::MIN as i128;
    let hi = i32::MAX as i128;
    let c1 = count as i128 - 1;
    let cond = sell_price as i128 * c1;
    let total = count as i128 * sell_price as i128;
    let balance = saldo as i128 - total;
    let stock_left = stock as i128 - count as i128;
    let condition_fits = sell_price <= 0 || (lo <= c1 && lo <= cond && cond <= hi);
    let allowed = sell_price <= 0 || (saldo as i128) > cond;
    condition_fits && (!allowed || (lo <= total && total <= hi && lo <= balance && balance <= hi && lo <= stock_left
        && stock_left <= hi))
}

/// Decides a purchase request of `count` units for an account with balance
/// `saldo` of a product with price `sell_price` and stock `stock`; where it
/// goes, gives the balance and the stock that the answer reports.
pub fn purchase_product(saldo: i32, sell_price: i32, stock: i32, count: i32) -> (r: Result<(i32, i32), AppError>)
    requires
        purchase_request_in_range(saldo, sell_price, stock, count),
    ensures
        r is Ok <==> purchase_allowed(saldo, sell_price, count),
        r matches Ok(v) ==> v.0 == saldo - count * sell_price && v.1 == stock - count,
        r matches Err(e) ==> e == AppError::InsufficientFunds,
        sell_price > 0 ==> (r is Ok <==> saldo - count * sell_price > -sell_price),
{
    proof {
        lemma_funds_rule(saldo, sell_price, count);
    }
    if sell_price <= 0 || saldo > sell_price * (count - 1) {
        Ok((saldo - count * sell_price, stock - count))
    } else {
        Err(AppError::InsufficientFunds)
    }
}

/// The purchase history row that a return undoes, as far as returns read it.
#[derive(Clone, Copy, Debug, PartialEq, Eq)]
pub struct ItemHistoryRecord {
    pub itemhistid: i32,
    pub saldhistid: Option<i32>,
}

/// A recorded balance change.
#[derive(Clone, Copy, Debug, PartialEq, Eq)]
pub struct SaldoHistoryRecord {
    pub saldhistid: i32,
    pub difference: i32,
}

/// What returning a product changes: the stock rises by one, the account
/// gets back what the purchase took, and the return is linked to the
/// purchase that it undoes.
#[derive(Clone, Copy, Debug, PartialEq, Eq)]
pub struct ReturnPlan {
    pub user_id: i32,
    pub price_id: i32,
    pub item_id: i32,
    pub stock_now: i32,
    pub refund: i32,
    pub new_balance: i32,
    pub returned_purchase_id: i32,
}

/// The next thing to do in returning a product.
#[derive(Debug, PartialEq, Eq)]
pub enum ReturnStep {
    /// Gather the recent purchases of the item by the user and the returns
    /// that refer to them, and choose the one to undo (see
    /// `choose_returned_purchase`).
    FindRecentPurchase { item_id: i32 },
    /// Look up the balance change that the purchase recorded.
    FindSaldoHistory { saldo_history_id: i32 },
    /// Look up the account of the user.
    FindPerson,
    /// Store the changes of the plan; the return succeeds.
    Apply(ReturnPlan),
    /// Stop with this answer: `false` where nothing can be returned.
    Finish(Result<bool, AppError>),
}

/// First step of a return: without a current price row nothing can be
/// returned; otherwise look for a recent purchase of its item.
pub fn return_on_price(price: &Option<PriceRecord>) -> (r: ReturnStep)
    ensures
        match price {
            None => r == ReturnStep::Finish(Ok(false)),
            Some(p) => r == ReturnStep::FindRecentPurchase { item_id: p.itemid },
        },
{
    match price {
        None => ReturnStep::Finish(Ok(false)),
        Some(p) => ReturnStep::FindRecentPurchase { item_id: p.itemid },
    }
}

/// Second step: without a recent purchase nothing can be returned; a
/// purchase without a balance change is an internal error; otherwise look
/// up its balance change.
pub fn return_on_purchase(purchase: &Option<ItemHistoryRecord>) -> (r: ReturnStep)
    ensures
        match purchase {
            None => r == ReturnStep::Finish(Ok(false)),
            Some(h) => match h.saldhistid {
                None => r == ReturnStep::Finish(Err(AppError::Internal(InternalError::SaldoHistoryIdMissing))),
                Some(id) => r == ReturnStep::FindSaldoHistory { saldo_history_id: id },
            },
        },
{
    match purchase {
        None => ReturnStep::Finish(Ok(false)),
        Some(h) => match h.saldhistid {
            None => ReturnStep::Finish(Err(AppError::Internal(InternalError::SaldoHistoryIdMissing))),
            Some(id) => ReturnStep::FindSaldoHistory { saldo_history_id: id },
        },
    }
}

/// A purchase row that a return might undo, with its time in microseconds
/// since the epoch.
#[derive(Clone, Copy, Debug, PartialEq, Eq)]
pub struct PurchaseCandidate {
    pub itemhistid: i32,
    pub actionid: i32,
    pub userid: i32,
    pub itemid: i32,
    pub time: i64,
    pub saldhistid: Option<i32>,
}

/// How long a purchase stays returnable, in microseconds: five minutes.
pub const RETURN_WINDOW_MICROS: i64 = 300000000;

/// Whether a row is a purchase that user `user_id` may return at time
/// `now` (in microseconds): a purchase of item `item_id` by that user,
/// made within the return window, that no return refers to yet (`returned`
/// holds the purchase ids that returns refer to).
pub open spec fn returnable(c: PurchaseCandidate, user_id: i32, item_id: i32, now: i64, returned: Seq<i32>) -> bool {
    &&& c.actionid == action_code(Actions::BoughtBy)
    &&& c.userid == user_id
    &&& c.itemid == item_id
    &&& c.time > now - RETURN_WINDOW_MICROS
    &&& !returned.contains(c.itemhistid)
}

/// The part of a purchase row that the later steps of a return read.
pub open spec fn record_of_candidate(c: PurchaseCandidate) -> ItemHistoryRecord {
    ItemHistoryRecord { itemhistid: c.itemhistid, saldhistid: c.saldhistid }
}

fn contains_id(ids: &Vec<i32>, id: i32) -> (r: bool)
    ensures
        r == ids@.contains(id),
{
    let mut i: usize = 0;
    while i < ids.len()
        invariant
            i <= ids.len(),
            forall|j: int| 0 <= j < i ==> ids@[j] != id,
        decreases ids.len() - i,
    {
        if ids[i] == id {
            assert(ids@[i as int] == id);
            return true;
        }
        i = i + 1;
    }
    false
}

/// Whether `h` is the purchase that a return chooses among `candidates`:
/// the record of a returnable row at position `i` that is at least as
/// recent as every returnable row, and strictly more recent than every
/// returnable row given before it.
pub open spec fn chosen_at(
    candidates: Seq<PurchaseCandidate>,
    returned: Seq<i32>,
    user_id: i32,
    item_id: i32,
    now: i64,
    h: ItemHistoryRecord,
    i: int,
) -> bool {
    &&& 0 <= i < candidates.len()
    &&& h == record_of_candidate(candidates[i])
    &&& returnable(candidates[i], user_id, item_id, now, returned)
    &&& forall|j: int| 0 <= j < candidates.len() && returnable(#[trigger] candidates[j], user_id, item_id, now, returned)
        ==> candidates[j].time <= candidates[i].time && (j < i ==> candidates[j].time < candidates[i].time)
}

/// Chooses the purchase that a return undoes among the rows given: the
/// latest row that is `returnable`, or none where no row is. Of several
/// returnable rows with the latest time, the first one given is chosen.
pub fn choose_returned_purchase(
    candidates: &Vec<PurchaseCandidate>,
    returned: &Vec<i32>,
    user_id: i32,
    item_id: i32,
    now: i64,
) -> (r: Option<ItemHistoryRecord>)
    ensures
        r is None <==> forall|i: int| 0 <= i < candidates@.len() ==> !returnable(#[trigger] candidates@[i], user_id, item_id, now, returned@),
        r matches Some(h) ==> exists|i: int| #[trigger] chosen_at(candidates@, returned@, user_id, item_id, now, h, i),
        r matches Some(h) ==> !returned@.contains(h.itemhistid),
{
    let bought: i32 = Actions::BoughtBy.into();
    let mut best: Option<usize> = None;
    let mut i: usize = 0;
    while i < candidates.len()
        invariant
            bought == action_code(Actions::BoughtBy),
            i <= candidates@.len(),
            match best {
                None => forall|j: int| 0 <= j < i ==> !returnable(#[trigger] candidates@[j], user_id, item_id, now, returned@),
                Some(b) => {
                    &&& b < i
                    &&& returnable(candidates@[b as int], user_id, item_id, now, returned@)
                    &&& forall|j: int| 0 <= j < i && returnable(#[trigger] candidates@[j], user_id, item_id, now, returned@)
                        ==> candidates@[j].time <= candidates@[b as int].time && (j < b ==> candidates@[j].time < candidates@[b as int].time)
                },
            },
        decreases candidates.len() - i,
    {
        let c = candidates[i];
        let ok = c.actionid == bought && c.userid == user_id && c.itemid == item_id
            && (c.time as i128) > (now as i128) - (RETURN_WINDOW_MICROS as i128) && !contains_id(returned, c.itemhistid);
        assert(ok == returnable(candidates@[i as int], user_id, item_id, now, returned@));
        if ok {
            match best {
                None => {
                    best = Some(i);
                },
                Some(b) => {
                    if candidates[b].time < c.time {
                        best = Some(i);
                    }
                },
            }
        }
        i = i + 1;
    }
    match best {
        None => None,
        Some(b) => {
            let c = candidates[b];
            let h = ItemHistoryRecord { itemhistid: c.itemhistid, saldhistid: c.saldhistid };
            proof {
                assert(chosen_at(candidates@, returned@, user_id, item_id, now, h, b as int));
            }
            Some(h)
        },
    }
}

/// Third step: a missing balance change is an internal error; otherwise
/// look up the account.
pub fn return_on_saldo_history(saldo_history_id: i32, saldo: &Option<SaldoHistoryRecord>) -> (r: ReturnStep)
    ensures
        match saldo {
            None => r == ReturnStep::Finish(Err(AppError::Internal(InternalError::SaldoHistoryNotFound(saldo_history_id)))),
            Some(_) => r == ReturnStep::FindPerson,
        },
{
    match saldo {
        None => ReturnStep::Finish(Err(AppError::Internal(InternalError::SaldoHistoryNotFound(saldo_history_id)))),
        Some(_) => ReturnStep::FindPerson,
    }
}

/// Whether a plan is the return, by user `user_id`, of the purchase
/// `purchase` of the product with price row `price`, whose balance change
/// was `saldo`, to the account `person`.
pub open spec fn return_plan_of(
    plan: ReturnPlan,
    user_id: i32,
    price: PriceRecord,
    purchase: ItemHistoryRecord,
    saldo: SaldoHistoryRecord,
    person: PersonRecord,
) -> bool {
    &&& plan.user_id == user_id
    &&& plan.price_id == price.priceid
    &&& plan.item_id == price.itemid
    &&& plan.stock_now == price.count + 1
    &&& plan.refund == -saldo.difference
    &&& plan.new_balance == person.saldo - saldo.difference
    &&& plan.returned_purchase_id == purchase.itemhistid
}

/// Last step: a missing account is an internal error; otherwise apply the
/// return.
pub fn return_on_person(
    user_id: i32,
    price: &PriceRecord,
    purchase: &ItemHistoryRecord,
    saldo: &SaldoHistoryRecord,
    person: &Option<PersonRecord>,
) -> (r: ReturnStep)
    requires
        price.count < i32::MAX,
        saldo.difference != i32::MIN,
        person matches Some(u) ==> i32::MIN <= u.saldo - saldo.difference <= i32::MAX,
    ensures
        match person {
            None => r == ReturnStep::Finish(Err(AppError::Internal(InternalError::UserNotFound(user_id)))),
            Some(u) => r matches ReturnStep::Apply(plan) && return_plan_of(plan, user_id, *price, *purchase, *saldo, *u),
        },
{
    let refund = -saldo.difference;
    let stock_now = price.count + 1;
    match person {
        None => ReturnStep::Finish(Err(AppError::Internal(InternalError::UserNotFound(user_id)))),
        Some(u) => ReturnStep::Apply(ReturnPlan {
            user_id,
            price_id: price.priceid,
            item_id: price.itemid,
            stock_now,
            refund,
            new_balance: u.saldo + refund,
            returned_purchase_id: purchase.itemhistid,
        }),
    }
}

/// Returning the one unit of a purchase restores the stock of the product
/// and the balance of the account to what they were before the purchase.
pub proof fn lemma_return_undoes_purchase(
    user_id: i32,
    price: PriceRecord,
    person: PersonRecord,
    bought: PurchasePlan,
    price_after: PriceRecord,
    person_after: PersonRecord,
    purchase: ItemHistoryRecord,
    saldo: SaldoHistoryRecord,
    returned: ReturnPlan,
)
    requires
        purchase_plan_of(bought, user_id, 1, price, person),
        price_after.count == bought.new_stock,
        person_after.saldo == bought.new_balance,
        saldo.difference == bought.steps@[0].difference,
        return_plan_of(returned, user_id, price_after, purchase, saldo, person_after),
    ensures
        returned.stock_now == price.count,
        returned.new_balance == person.saldo,
        returned.refund == price.sellprice,
{
}

/// A return refers to the purchase it undoes, so once its return is
/// recorded (its id joins those that returns refer to) that purchase is
/// not returnable again, at any time and by any user.
pub proof fn lemma_returned_purchase_not_returnable_again(
    user_id: i32,
    price: PriceRecord,
    purchase: ItemHistoryRecord,
    saldo: SaldoHistoryRecord,
    person: PersonRecord,
    plan: ReturnPlan,
    returned: Seq<i32>,
    c: PurchaseCandidate,
    any_user: i32,
    any_item: i32,
    later: i64,
)
    requires
        return_plan_of(plan, user_id, price, purchase, saldo, person),
        c.itemhistid == purchase.itemhistid,
    ensures
        !returnable(c, any_user, any_item, later, returned.push(plan.returned_purchase_id)),
{
    assert(returned.push(plan.returned_purchase_id)[returned.len() as int] == c.itemhistid);
}

/// A return changes only what belongs to the caller: the plan that the
/// last step gives writes the balance of the caller's account and the
/// stock of the product's current price row, and it undoes a purchase of
/// that product by the caller, chosen among the rows given. The earlier
/// steps change nothing: they only look up or answer.
pub proof fn lemma_return_touches_only_callers_rows(
    user_id: i32,
    price: PriceRecord,
    candidates: Seq<PurchaseCandidate>,
    returned: Seq<i32>,
    now: i64,
    purchase: ItemHistoryRecord,
    i: int,
    saldo: SaldoHistoryRecord,
    person: PersonRecord,
    plan: ReturnPlan,
)
    requires
        chosen_at(candidates, returned, user_id, price.itemid, now, purchase, i),
        return_plan_of(plan, user_id, price, purchase, saldo, person),
    ensures
        plan.user_id == user_id,
        plan.price_id == price.priceid,
        plan.item_id == price.itemid,
        candidates[i].itemhistid == plan.returned_purchase_id,
        candidates[i].userid == user_id,
        candidates[i].itemid == price.itemid,
        candidates[i].actionid == action_code(Actions::BoughtBy),
        !returned.contains(plan.returned_purchase_id),
{
}

/// The funds rule for a product with a positive price: a purchase goes
/// exactly when the balance after it stays above minus one unit price, that
/// is, when the balance exceeds the price of all units but one, for every
/// count (a balance of 0 cannot buy 4 units at 150).
pub proof fn lemma_funds_rule(saldo: i32, sell_price: i32, count: i32)
    ensures
        sell_price > 0 ==> (purchase_allowed(saldo, sell_price, count) <==> saldo - count * sell_price > -sell_price),
        sell_price > 0 ==> (purchase_allowed(saldo, sell_price, count) <==> saldo > sell_price * (count - 1)),
        sell_price <= 0 ==> purchase_allowed(saldo, sell_price, count),
{
    assert(sell_price * (count - 1) == count * sell_price - sell_price) by (nonlinear_arith);
}

/// A purchase that the funds rule allows stays allowed with fewer units or
/// with a larger balance: buying more never gets past a refusal of buying
/// less.
pub proof fn lemma_funds_rule_monotone(saldo: i32, more_saldo: i32, sell_price: i32, count: i32, fewer: i32)
    requires
        purchase_allowed(saldo, sell_price, count),
        fewer <= count,
        saldo <= more_saldo,
    ensures
        purchase_allowed(more_saldo, sell_price, fewer),
{
    if sell_price > 0 {
        lemma_funds_rule(saldo, sell_price, count);
        lemma_funds_rule(more_saldo, sell_price, fewer);
        assert(sell_price * (fewer - 1) <= sell_price * (count - 1)) by (nonlinear_arith)
            requires sell_price > 0, fewer <= count;
    }
}

} // verus!
