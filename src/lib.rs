//! State of a priced token contract: a fixed total supply, a mutable price,
//! an owner account and a table of balances, with the three operations that
//! change it.
pub mod account;
pub mod balances;
pub mod contract;

pub use account::AccountId;
pub use balances::Balances;
pub use contract::{Price, PriceView};
