//! Persisted record shapes: applications, subscribers, products,
//! entitlements, transactions, events and webhook endpoints, together with
//! the request shapes that create them.
//!
//! Timestamps and identifiers are carried as plain strings supplied by the
//! caller; the storage layer owns their generation.

use vstd::prelude::*;

verus! {

/// A registered application.
#[derive(Clone, Debug)]
pub struct App {
    pub id: String,
    pub name: String,
    pub platform: String,
    pub bundle_id: String,
    pub store_credentials_encrypted: Option<String>,
    pub created_at: String,
    pub updated_at: String,
}

/// Request to register an application.
#[derive(Clone, Debug)]
pub struct CreateApp {
    pub name: String,
    pub platform: String,
    pub bundle_id: String,
}

/// Signing credentials for the Apple store APIs.
#[derive(Clone, Debug)]
pub struct AppleCredentials {
    pub issuer_id: String,
    pub key_id: String,
    pub private_key: String,
}

/// Per-application store credentials.
#[derive(Clone, Debug)]
pub struct StoreCredentials {
    pub apple: Option<AppleCredentials>,
}

/// Request to replace an application's store credentials.
#[derive(Clone, Debug)]
pub struct UpdateStoreCredentials {
    pub apple: Option<AppleCredentials>,
}

/// One end user of one application.
#[derive(Clone, Debug)]
pub struct Subscriber {
    pub id: String,
    pub app_id: String,
    pub app_user_id: String,
    pub created_at: String,
}

/// A purchasable product of an application.
#[derive(Clone, Debug)]
pub struct Product {
    pub id: String,
    pub app_id: String,
    pub store_product_id: String,
    pub product_type: String,
    pub display_name: Option<String>,
    pub description: Option<String>,
    pub price_micros: Option<i64>,
    pub currency: Option<String>,
    pub subscription_period: Option<String>,
    pub trial_period: Option<String>,
    pub last_synced_at: Option<String>,
    pub created_at: String,
}

/// Request to register a product.
#[derive(Clone, Debug)]
pub struct CreateProduct {
    pub store_product_id: String,
    pub product_type: String,
    pub entitlement_ids: Vec<String>,
}

/// A named capability granted by owning certain products.
#[derive(Clone, Debug)]
pub struct Entitlement {
    pub id: String,
    pub app_id: String,
    pub name: String,
    pub description: Option<String>,
    pub created_at: String,
}

/// Request to create an entitlement.
#[derive(Clone, Debug)]
pub struct CreateEntitlement {
    pub name: String,
    pub description: Option<String>,
}

/// A purchase as recorded in the ledger.
#[derive(Clone, Debug)]
pub struct Transaction {
    pub id: String,
    pub subscriber_id: String,
    pub product_id: String,
    pub store: String,
    pub store_transaction_id: String,
    pub purchase_date: String,
    pub expiration_date: Option<String>,
    pub status: String,
    pub raw_receipt: Option<String>,
    pub created_at: String,
    pub updated_at: String,
}

/// A recorded internal event, the unit forwarded to webhook endpoints.
#[derive(Clone, Debug)]
pub struct Event {
    pub id: String,
    pub subscriber_id: String,
    pub event_type: String,
    pub payload: String,
    pub created_at: String,
}

/// A subscriber-registered HTTP endpoint; consulted only while active.
#[derive(Clone, Debug)]
pub struct WebhookEndpoint {
    pub id: String,
    pub app_id: String,
    pub url: String,
    pub secret: String,
    pub active: i32,
    pub created_at: String,
}

/// Request to register a webhook endpoint.
#[derive(Clone, Debug)]
pub struct CreateWebhook {
    pub app_id: String,
    pub url: String,
}

/// Request to submit a store receipt for verification.
#[derive(Clone, Debug)]
pub struct SubmitReceipt {
    pub app_id: String,
    pub app_user_id: String,
    pub store: String,
    pub receipt_data: String,
    pub product_id: String,
}

/// A subscriber together with everything a lookup returns.
#[derive(Clone, Debug)]
pub struct SubscriberInfo {
    pub subscriber: Subscriber,
    pub active_entitlements: Vec<Entitlement>,
    pub transactions: Vec<Transaction>,
}

/// One product in an offerings listing, with catalog defaults applied.
#[derive(Clone, Debug)]
pub struct OfferingProduct {
    pub store_product_id: String,
    pub product_type: String,
    pub display_name: String,
    pub description: Option<String>,
    pub price_micros: i64,
    pub currency: String,
    pub subscription_period: Option<String>,
    pub trial_period: Option<String>,
    pub entitlements: Vec<String>,
}

/// The full offerings listing of an application.
#[derive(Clone, Debug)]
pub struct OfferingsResponse {
    pub offerings: Vec<OfferingProduct>,
}

/// Cursor and bound of an event listing.
#[derive(Clone, Debug)]
pub struct EventsQuery {
    pub since: Option<String>,
    pub limit: Option<i64>,
}

/// What the health probe answers.
#[derive(Clone, Debug)]
pub struct HealthResponse {
    pub status: String,
    pub version: String,
}

/// The envelope a pub/sub push wraps around a Google notification.
#[derive(Clone, Debug)]
pub struct PubSubMessage {
    pub message: PubSubData,
}

/// The body of a pub/sub push: the notification, standard-base64 encoded.
#[derive(Clone, Debug)]
pub struct PubSubData {
    pub data: String,
}

/// Where the ledger lives.
#[derive(Clone, Debug)]
pub struct DatabaseConfig {
    pub url: String,
}

/// An API caller resolved to the application it may act for.
#[derive(Clone, Debug)]
pub struct AuthenticatedApp {
    pub app_id: String,
}

} // verus!
