//! Subscription vault: prepaid subscriptions with recurring billing.
//!
//! The library holds the vault's rules: the one-time initialisation guard and
//! subscription bookkeeping (`vault`), the subscription status state machine
//! (`state_machine`), and the charge/deposit accounting with its invariants
//! (`charge_model`).  Reading and writing the ledger, authorisation and the
//! contract entry points live outside the library.
mod address;
pub mod charge_model;
pub mod error;
pub mod keys;
pub mod state_machine;
pub mod types;
pub mod vault;

pub use error::Error;
pub use keys::DataKey;
pub use types::{Subscription, SubscriptionStatus};
pub use vault::SubscriptionVault;
