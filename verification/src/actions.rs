use vstd::prelude::*;

verus! {

/// The kinds of events that the history tables record, in the numbering
/// that the database uses.
#[derive(Clone, Copy, Debug, PartialEq, Eq, Structural)]
pub enum Actions {
    ItemCreated,
    ChangedDescription,
    ChangedWeight,
    ChangedProductGroup,
    BoughtBy,
    ChangedBuyprice,
    ChangedSellprice,
    ChangedCountOrInventoriedButNotBought,
    UserCreated,
    LoggedIn,
    LoggedOut,
    LoginFailed,
    FailedPasswordChange,
    AdminChangedPassword,
    SelfChangedPassword,
    WithdrewMoney,
    /// Superseded by `DepositedMoneyCash` and `DepositedMoneyBankTransfer`;
    /// old rows of the database still carry it.
    DepositedMoney,
    ChangedRole,
    ChangedName,
    ChangedUnivident,
    /// The buzzer limit feature was removed.
    ChangedBuzzerlimit,
    /// The colour feature was removed.
    ChangedFgcolor,
    /// The colour feature was removed.
    ChangedBgcolor,
    BoxCreated,
    ChangedBoxItemCount,
    DepositedMoneyCash,
    DepositedMoneyBankTransfer,
    ProductReturned,
    ProductBuyIn,
}

/// The database code of an action: the actions are numbered from 1 in the
/// order in which they are declared.
pub open spec fn action_code(action: Actions) -> i32 {
    match action {
        Actions::ItemCreated => 1,
        Actions::ChangedDescription => 2,
        Actions::ChangedWeight => 3,
        Actions::ChangedProductGroup => 4,
        Actions::BoughtBy => 5,
        Actions::ChangedBuyprice => 6,
        Actions::ChangedSellprice => 7,
        Actions::ChangedCountOrInventoriedButNotBought => 8,
        Actions::UserCreated => 9,
        Actions::LoggedIn => 10,
        Actions::LoggedOut => 11,
        Actions::LoginFailed => 12,
        Actions::FailedPasswordChange => 13,
        Actions::AdminChangedPassword => 14,
        Actions::SelfChangedPassword => 15,
        Actions::WithdrewMoney => 16,
        Actions::DepositedMoney => 17,
        Actions::ChangedRole => 18,
        Actions::ChangedName => 19,
        Actions::ChangedUnivident => 20,
        Actions::ChangedBuzzerlimit => 21,
        Actions::ChangedFgcolor => 22,
        Actions::ChangedBgcolor => 23,
        Actions::BoxCreated => 24,
        Actions::ChangedBoxItemCount => 25,
        Actions::DepositedMoneyCash => 26,
        Actions::DepositedMoneyBankTransfer => 27,
        Actions::ProductReturned => 28,
        Actions::ProductBuyIn => 29,
    }
}

impl From<Actions> for i32 {
    fn from(action: Actions) -> (code: i32) {
        match action {
            Actions::ItemCreated => 1,
            Actions::ChangedDescription => 2,
            Actions::ChangedWeight => 3,
            Actions::ChangedProductGroup => 4,
            Actions::BoughtBy => 5,
            Actions::ChangedBuyprice => 6,
            Actions::ChangedSellprice => 7,
            Actions::ChangedCountOrInventoriedButNotBought => 8,
            Actions::UserCreated => 9,
            Actions::LoggedIn => 10,
            Actions::LoggedOut => 11,
            Actions::LoginFailed => 12,
            Actions::FailedPasswordChange => 13,
            Actions::AdminChangedPassword => 14,
            Actions::SelfChangedPassword => 15,
            Actions::WithdrewMoney => 16,
            Actions::DepositedMoney => 17,
            Actions::ChangedRole => 18,
            Actions::ChangedName => 19,
            Actions::ChangedUnivident => 20,
            Actions::ChangedBuzzerlimit => 21,
            Actions::ChangedFgcolor => 22,
            Actions::ChangedBgcolor => 23,
            Actions::BoxCreated => 24,
            Actions::ChangedBoxItemCount => 25,
            Actions::DepositedMoneyCash => 26,
            Actions::DepositedMoneyBankTransfer => 27,
            Actions::ProductReturned => 28,
            Actions::ProductBuyIn => 29,
        }
    }
}

impl vstd::std_specs::convert::FromSpecImpl<Actions> for i32 {
    open spec fn obeys_from_spec() -> bool {
        true
    }

    open spec fn from_spec(action: Actions) -> i32 {
        action_code(action)
    }
}

/// Distinct actions are stored under distinct codes, and every code lies in
/// the range 1 to 29.
pub proof fn lemma_action_codes_distinct(a: Actions, b: Actions)
    ensures
        a != b ==> action_code(a) != action_code(b),
        1 <= action_code(a) <= 29,
{
}

} // verus!
