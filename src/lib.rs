//! Domain core of a household budget tracker: money amounts, identifiers,
//! transactions, user profiles, budgets and groups, with the rules that
//! govern how each of them may change.

pub mod budget;
pub mod clock;
pub mod group;
pub mod identifiers;
pub mod lists;
pub mod money;
pub mod profile;
pub mod ratio;
pub mod text;
pub mod transaction;

pub use budget::{Budget, BudgetPeriod};
pub use clock::Timestamp;
pub use group::Group;
pub use identifiers::{GroupId, TransactionId, UserId};
pub use money::{Amount, CurrencyMismatch, Money};
pub use profile::UserProfile;
pub use ratio::Ratio;
pub use transaction::{
    SettlementInfo, SettlementStatus, Transaction, TransactionCategory, TransactionType,
};
