pub mod balance;
pub mod grant;
pub mod supply;

pub use balance::{Balance, Balances};
pub use grant::{CoinGrant, GrantSource, GrantStatus};
pub use supply::SupplyTracker;
