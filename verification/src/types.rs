use vstd::prelude::*;

verus! {

/// The lifecycle status of a subscription.
#[derive(Clone, Copy, Debug, PartialEq, Eq, Structural)]
pub enum SubscriptionStatus {
    Active,
    Paused,
    Cancelled,
    InsufficientBalance,
    GracePeriod,
    Expired,
    Archived,
}

/// A prepaid subscription as the vault stores it.
#[derive(Debug, PartialEq, Eq)]
pub struct Subscription {
    pub subscriber: soroban_sdk::Address,
    pub token: soroban_sdk::Address,
    pub merchant: soroban_sdk::Address,
    pub amount: i128,
    pub interval_seconds: u64,
    pub last_payment_timestamp: u64,
    pub status: SubscriptionStatus,
    pub prepaid_balance: i128,
    pub usage_enabled: bool,
    pub expires_at: Option<u64>,
}

impl Subscription {
    /// A field-by-field copy of the subscription.
    pub fn copy(&self) -> (r: Subscription)
        ensures
            r == *self,
    {
        Subscription {
            subscriber: self.subscriber.clone(),
            token: self.token.clone(),
            merchant: self.merchant.clone(),
            amount: self.amount,
            interval_seconds: self.interval_seconds,
            last_payment_timestamp: self.last_payment_timestamp,
            status: self.status,
            prepaid_balance: self.prepaid_balance,
            usage_enabled: self.usage_enabled,
            expires_at: self.expires_at,
        }
    }
}

} // verus!
