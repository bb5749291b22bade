//! The normalized transaction and event model shared by both vendor
//! adapters.

use vstd::prelude::*;

verus! {

/// Which vendor reported a transaction.
#[derive(Clone, Copy, Debug, PartialEq, Eq, Structural)]
pub enum Store {
    Apple,
    Google,
}

impl Store {
    /// The stable lower-case name used in persisted records.
    pub fn as_str(&self) -> (r: &'static str)
        ensures
            r@ == spec_store_str(*self),
    {
        match self {
            Store::Apple => "apple",
            Store::Google => "google",
        }
    }
}

/// The persisted name of a `Store`.
pub open spec fn spec_store_str(s: Store) -> Seq<char> {
    match s {
        Store::Apple => "apple"@,
        Store::Google => "google"@,
    }
}

/// The state of a purchase as a vendor last reported it.
#[derive(Clone, Copy, Debug, PartialEq, Eq, Structural)]
pub enum TransactionStatus {
    Active,
    Expired,
    Refunded,
    GracePeriod,
    BillingRetry,
}

impl TransactionStatus {
    /// The stable lower-case name used in persisted records.
    pub fn as_str(&self) -> (r: &'static str)
        ensures
            r@ == spec_status_str(*self),
    {
        match self {
            TransactionStatus::Active => "active",
            TransactionStatus::Expired => "expired",
            TransactionStatus::Refunded => "refunded",
            TransactionStatus::GracePeriod => "grace_period",
            TransactionStatus::BillingRetry => "billing_retry",
        }
    }
}

/// The persisted name of a `TransactionStatus`.
pub open spec fn spec_status_str(s: TransactionStatus) -> Seq<char> {
    match s {
        TransactionStatus::Active => "active"@,
        TransactionStatus::Expired => "expired"@,
        TransactionStatus::Refunded => "refunded"@,
        TransactionStatus::GracePeriod => "grace_period"@,
        TransactionStatus::BillingRetry => "billing_retry"@,
    }
}

/// An immutable snapshot of one purchase's state as reported by a vendor.
/// Never mutated; superseded by a newer snapshot on re-verification.
#[derive(Clone, Debug, PartialEq, Eq)]
pub struct VerifiedTransaction {
    pub store_transaction_id: String,
    pub product_id: String,
    pub purchase_date: String,
    pub expiration_date: Option<String>,
    pub status: TransactionStatus,
    pub store: Store,
}

/// One normalized event derived from a vendor notification: a kind from the
/// shared vocabulary and the transaction it concerns.
#[derive(Clone, Debug, PartialEq, Eq)]
pub struct TransactionEvent {
    pub event_type: String,
    pub transaction: VerifiedTransaction,
}

/// Which of the vendor's environments an Apple adapter talks to.
#[derive(Clone, Copy, Debug, PartialEq, Eq, Structural)]
pub enum AppleEnvironment {
    Production,
    Sandbox,
}

/// The transaction-status base URL for an Apple environment.
pub fn apple_base_url(env: &AppleEnvironment) -> (r: &'static str)
    ensures
        r@ == spec_apple_base_url(*env),
{
    match env {
        AppleEnvironment::Production => "https://api.storekit.itunes.apple.com",
        AppleEnvironment::Sandbox => "https://api.storekit-sandbox.itunes.apple.com",
    }
}

/// The URL of each Apple environment's transaction-status API.
pub open spec fn spec_apple_base_url(env: AppleEnvironment) -> Seq<char> {
    match env {
        AppleEnvironment::Production => "https://api.storekit.itunes.apple.com"@,
        AppleEnvironment::Sandbox => "https://api.storekit-sandbox.itunes.apple.com"@,
    }
}

} // verus!
