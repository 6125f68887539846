use vstd::prelude::*;

use crate::category::Category;
use crate::product::Product;
use crate::user::{code_of_privacy, role_name, role_name_spec, role_of_code, Role, User};

verus! {

/// An account as the answers of the service show it.
#[derive(Clone, Debug, PartialEq, Eq)]
pub struct UserResponse {
    pub user_id: i32,
    pub username: String,
    pub full_name: String,
    pub email: String,
    pub money_balance: i32,
    pub role: String,
    pub privacy_level: i32,
}

impl UserResponse {
    /// How an account is shown.
    pub fn from_user(user: User) -> (r: UserResponse)
        ensures
            r.user_id == user.id,
            r.username == user.username,
            r.full_name == user.full_name,
            r.email == user.email,
            r.money_balance == user.saldo,
            r.role@ == role_name_spec(user.role),
            r.privacy_level == code_of_privacy(user.privacy_level),
    {
        UserResponse {
            user_id: user.id,
            username: user.username,
            full_name: user.full_name,
            email: user.email,
            money_balance: user.saldo,
            role: role_name(user.role),
            privacy_level: i32::from(user.privacy_level),
        }
    }
}

/// A purchase as the purchase history query returns it; times are in
/// microseconds since the epoch.
pub struct PurchaseHistoryRow {
    pub purchase_id: i32,
    pub time: i64,
    pub price: i32,
    pub returned: bool,
    pub balance_after: i32,
    pub barcode: String,
    pub name: String,
    pub sell_price: i32,
    pub stock: i32,
    pub category_id: i32,
    pub category_description: String,
    pub userid: i32,
    pub username: String,
    pub realname: String,
    pub univident: String,
    pub roleid: i32,
    pub privacylevel: i32,
}

/// A purchase as the history answers show it.
pub struct PurchaseHistoryData {
    pub id: i32,
    pub time: i64,
    pub price: i32,
    pub returned: bool,
    pub product: Product,
    pub sell_price: i32,
    pub stock: i32,
    pub balance_after: i32,
    pub user: UserResponse,
}

impl PurchaseHistoryData {
    /// How a purchase row is shown: the product without its buying price
    /// and the account without its balance (both shown as 0), the role by
    /// name.
    pub fn from_row(row: PurchaseHistoryRow) -> (r: PurchaseHistoryData)
        ensures
            r.id == row.purchase_id,
            r.time == row.time,
            r.price == row.price,
            r.returned == row.returned,
            r.product.barcode == row.barcode,
            r.product.name == row.name,
            r.product.category.id == row.category_id,
            r.product.category.description == row.category_description,
            r.product.buy_price == 0,
            r.product.sell_price == row.sell_price,
            r.product.stock == row.stock,
            r.sell_price == row.sell_price,
            r.stock == row.stock,
            r.balance_after == row.balance_after,
            r.user.user_id == row.userid,
            r.user.username == row.username,
            r.user.full_name == row.realname,
            r.user.email == row.univident,
            r.user.money_balance == 0,
            r.user.role@ == role_name_spec(role_of_code(row.roleid)),
            r.user.privacy_level == row.privacylevel,
    {
        PurchaseHistoryData {
            id: row.purchase_id,
            time: row.time,
            price: row.price,
            returned: row.returned,
            product: Product {
                barcode: row.barcode,
                name: row.name,
                category: Category { id: row.category_id, description: row.category_description },
                buy_price: 0,
                sell_price: row.sell_price,
                stock: row.stock,
            },
            sell_price: row.sell_price,
            stock: row.stock,
            balance_after: row.balance_after,
            user: UserResponse {
                user_id: row.userid,
                username: row.username,
                full_name: row.realname,
                email: row.univident,
                money_balance: 0,
                role: role_name(Role::from(row.roleid)),
                privacy_level: row.privacylevel,
            },
        }
    }
}

/// A deposit as the deposit history query returns it; times are in
/// microseconds since the epoch.
pub struct DepositHistoryRow {
    pub pershistid: i32,
    pub time: i64,
    pub difference: i32,
    pub saldo: i32,
    pub userid: i32,
    pub name: String,
    pub realname: String,
    pub univident: String,
    pub current_saldo: i32,
    pub roleid: i32,
    pub actionid: i32,
    pub privacylevel: i32,
}

/// A deposit as the history answers show it.
pub struct DepositHistoryData {
    pub deposit_id: i32,
    pub time: i64,
    pub amount: i32,
    pub balance_after: i32,
    pub action_id: i32,
    pub user: UserResponse,
}

impl DepositHistoryData {
    /// How a deposit row is shown: the amount is the balance change, the
    /// account with its current balance and its role by name.
    pub fn from_row(row: DepositHistoryRow) -> (r: DepositHistoryData)
        ensures
            r.deposit_id == row.pershistid,
            r.time == row.time,
            r.amount == row.difference,
            r.balance_after == row.saldo,
            r.action_id == row.actionid,
            r.user.user_id == row.userid,
            r.user.username == row.name,
            r.user.full_name == row.realname,
            r.user.email == row.univident,
            r.user.money_balance == row.current_saldo,
            r.user.role@ == role_name_spec(role_of_code(row.roleid)),
            r.user.privacy_level == row.privacylevel,
    {
        DepositHistoryData {
            deposit_id: row.pershistid,
            time: row.time,
            amount: row.difference,
            balance_after: row.saldo,
            action_id: row.actionid,
            user: UserResponse {
                user_id: row.userid,
                username: row.name,
                full_name: row.realname,
                email: row.univident,
                money_balance: row.current_saldo,
                role: role_name(Role::from(row.roleid)),
                privacy_level: row.privacylevel,
            },
        }
    }
}

} // verus!
