//! Google store adapter: reads the vendor's pub/sub push notifications and
//! subscription-status responses into the normalized model.
//!
//! A Google notification carries only a purchase-token reference, never a
//! transaction snapshot, so the caller must follow up with a status call and
//! hand its body back here; notification and follow-up succeed or fail as
//! one unit.

use crate::codec;
use crate::errors::{AdapterError, SigningError};
use crate::signer;
use crate::strutil::{or_empty, str_eq, unwrap_or_empty};
use crate::types::{Store, TransactionEvent, TransactionStatus, VerifiedTransaction};
use vstd::prelude::*;
use vstd::utf8::encode_utf8;

verus! {

/// The `subscriptionNotification.notificationType` integer and
/// `subscriptionNotification.purchaseToken` string of a Google notification
/// body, if the body is valid JSON.
pub uninterp spec fn google_notification_of(body: Seq<u8>) -> Option<
    (Option<i64>, Option<Seq<char>>),
>;

/// Relies on serde_json::from_slice, Value::as_i64 and Value::as_str: reads
/// the notification code and purchase token of a JSON object.
#[verifier::external_body]
fn parse_google_notification(body: &[u8]) -> (r: Option<(Option<i64>, Option<String>)>)
    ensures
        r.deep_view() == google_notification_of(body@),
{
    let v: serde_json::Value = serde_json::from_slice(body).ok()?;
    Some((
        v["subscriptionNotification"]["notificationType"].as_i64(),
        v["subscriptionNotification"]["purchaseToken"].as_str().map(|s| s.to_string()),
    ))
}

/// The `subscriptionState`, `startTime`, `lineItems[0].productId` and
/// `lineItems[0].expiryTime` strings of a Google subscription-status
/// response, if the body is valid JSON.
pub uninterp spec fn google_subscription_of(body: Seq<u8>) -> Option<
    (Option<Seq<char>>, Option<Seq<char>>, Option<Seq<char>>, Option<Seq<char>>),
>;

/// Relies on serde_json::from_slice and Value::as_str: reads the state,
/// start time and first line item of a JSON object.
#[verifier::external_body]
fn parse_google_subscription(body: &[u8]) -> (r: Option<
    (Option<String>, Option<String>, Option<String>, Option<String>),
>)
    ensures
        r.deep_view() == google_subscription_of(body@),
{
    let v: serde_json::Value = serde_json::from_slice(body).ok()?;
    Some((
        v["subscriptionState"].as_str().map(|s| s.to_string()),
        v["startTime"].as_str().map(|s| s.to_string()),
        v["lineItems"][0]["productId"].as_str().map(|s| s.to_string()),
        v["lineItems"][0]["expiryTime"].as_str().map(|s| s.to_string()),
    ))
}

/// The `message.data` string of a pub/sub push envelope, if the body is
/// valid JSON.
pub uninterp spec fn google_pubsub_data_of(body: Seq<u8>) -> Option<Option<Seq<char>>>;

/// Relies on serde_json::from_slice and Value::as_str: reads the
/// `message.data` string field of a JSON object.
#[verifier::external_body]
fn parse_pubsub_data(body: &[u8]) -> (r: Option<Option<String>>)
    ensures
        r.deep_view() == google_pubsub_data_of(body@),
{
    let v: serde_json::Value = serde_json::from_slice(body).ok()?;
    Some(v["message"]["data"].as_str().map(|s| s.to_string()))
}

/// The shared event vocabulary a Google notification code maps to; codes
/// outside the table map to `UNKNOWN`.
pub open spec fn spec_google_event_kind(code: int) -> Seq<char> {
    if code == 1 {
        "SUBSCRIPTION_RECOVERED"@
    } else if code == 2 {
        "RENEWAL"@
    } else if code == 3 {
        "CANCELLATION"@
    } else if code == 4 {
        "INITIAL_PURCHASE"@
    } else if code == 5 {
        "ACCOUNT_HOLD"@
    } else if code == 6 {
        "GRACE_PERIOD"@
    } else if code == 7 {
        "RESTARTED"@
    } else if code == 12 {
        "REFUND"@
    } else if code == 13 {
        "EXPIRATION"@
    } else {
        "UNKNOWN"@
    }
}

/// Maps a Google notification code to the shared event vocabulary.
pub fn google_event_kind(code: i64) -> (r: String)
    ensures
        r@ == spec_google_event_kind(code as int),
{
    if code == 1 {
        String::from_str("SUBSCRIPTION_RECOVERED")
    } else if code == 2 {
        String::from_str("RENEWAL")
    } else if code == 3 {
        String::from_str("CANCELLATION")
    } else if code == 4 {
        String::from_str("INITIAL_PURCHASE")
    } else if code == 5 {
        String::from_str("ACCOUNT_HOLD")
    } else if code == 6 {
        String::from_str("GRACE_PERIOD")
    } else if code == 7 {
        String::from_str("RESTARTED")
    } else if code == 12 {
        String::from_str("REFUND")
    } else if code == 13 {
        String::from_str("EXPIRATION")
    } else {
        String::from_str("UNKNOWN")
    }
}

/// The internal status a Google subscription state maps to. Any state
/// outside the table falls back to `Active`; the fallback mirrors the
/// vendor-facing behaviour this library reproduces, deliberate and open to
/// question, since it reads unknown future states as active subscriptions.
pub open spec fn spec_google_status(state: Seq<char>) -> TransactionStatus {
    if state == "SUBSCRIPTION_STATE_ACTIVE"@ {
        TransactionStatus::Active
    } else if state == "SUBSCRIPTION_STATE_EXPIRED"@ {
        TransactionStatus::Expired
    } else if state == "SUBSCRIPTION_STATE_GRACE_PERIOD"@ {
        TransactionStatus::GracePeriod
    } else if state == "SUBSCRIPTION_STATE_ON_HOLD"@ {
        TransactionStatus::BillingRetry
    } else {
        TransactionStatus::Active
    }
}

/// Maps a Google subscription state to the internal status.
pub fn google_status(state: &str) -> (r: TransactionStatus)
    ensures
        r == spec_google_status(state@),
{
    if str_eq(state, "SUBSCRIPTION_STATE_ACTIVE") {
        TransactionStatus::Active
    } else if str_eq(state, "SUBSCRIPTION_STATE_EXPIRED") {
        TransactionStatus::Expired
    } else if str_eq(state, "SUBSCRIPTION_STATE_GRACE_PERIOD") {
        TransactionStatus::GracePeriod
    } else if str_eq(state, "SUBSCRIPTION_STATE_ON_HOLD") {
        TransactionStatus::BillingRetry
    } else {
        TransactionStatus::Active
    }
}

/// Reads a success body of the vendor's subscription-status endpoint into a
/// snapshot of the purchase the token refers to.
pub fn transaction_from_subscription_response(purchase_token: &str, body: &[u8]) -> (r: Result<
    VerifiedTransaction,
    AdapterError,
>)
    ensures
        match google_subscription_of(body@) {
            None => r matches Err(e) && e == AdapterError::MalformedResponse,
            Some((state, start, pid, expiry)) => r matches Ok(t)
                && t.store_transaction_id@ == purchase_token@ && t.product_id@ == or_empty(pid)
                && t.purchase_date@ == or_empty(start) && t.expiration_date.deep_view() == expiry
                && t.status == spec_google_status(or_empty(state)) && t.store == Store::Google,
        },
{
    match parse_google_subscription(body) {
        None => Err(AdapterError::MalformedResponse),
        Some((state, start, pid, expiry)) => {
            let state_str = unwrap_or_empty(state);
            Ok(
                VerifiedTransaction {
                    store_transaction_id: purchase_token.to_owned(),
                    product_id: unwrap_or_empty(pid),
                    purchase_date: unwrap_or_empty(start),
                    expiration_date: expiry,
                    status: google_status(state_str.as_str()),
                    store: Store::Google,
                },
            )
        },
    }
}

/// What decoding a Google notification must yield: the mapped event kind and
/// the purchase token, or the precise error.
pub open spec fn spec_google_notification_outcome(body: Seq<u8>) -> Result<
    (Seq<char>, Seq<char>),
    AdapterError,
> {
    match google_notification_of(body) {
        None => Err(AdapterError::MalformedResponse),
        Some((code, token)) => match token {
            None => Err(AdapterError::MalformedResponse),
            Some(token) => Ok(
                (
                    spec_google_event_kind(
                        match code {
                            Some(c) => c as int,
                            None => 0,
                        },
                    ),
                    token,
                ),
            ),
        },
    }
}

/// Decodes one Google push notification to its mapped event kind and the
/// purchase token to verify; the caller fetches that purchase's status and
/// completes the event with `transaction_from_subscription_response` and
/// `make_event`, failing the whole notification if the follow-up fails.
pub fn decode_notification(body: &[u8]) -> (r: Result<(String, String), AdapterError>)
    ensures
        match spec_google_notification_outcome(body@) {
            Ok((kind, token)) => r matches Ok((k, t)) && k@ == kind && t@ == token,
            Err(e) => r matches Err(e2) && e2 == e,
        },
{
    match parse_google_notification(body) {
        None => Err(AdapterError::MalformedResponse),
        Some((code, token)) => match token {
            None => Err(AdapterError::MalformedResponse),
            Some(token) => {
                let c = match code {
                    Some(c) => c,
                    None => 0,
                };
                Ok((google_event_kind(c), token))
            },
        },
    }
}

/// The one event a Google notification yields once its follow-up
/// verification has answered.
pub fn make_event(kind: String, transaction: VerifiedTransaction) -> (events: Vec<
    TransactionEvent,
>)
    ensures
        events@.len() == 1,
        events@[0].event_type == kind,
        events@[0].transaction == transaction,
{
    let mut events: Vec<TransactionEvent> = Vec::new();
    events.push(TransactionEvent { event_type: kind, transaction });
    events
}

/// Unwraps the pub/sub push envelope around a Google notification: the
/// notification body is the standard-base64 decoding of `message.data`.
pub fn unwrap_pubsub(body: &[u8]) -> (r: Result<Vec<u8>, AdapterError>)
    ensures
        match google_pubsub_data_of(body@) {
            None => r matches Err(e) && e == AdapterError::MalformedResponse,
            Some(None) => r matches Err(e) && e == AdapterError::MalformedResponse,
            Some(Some(data)) => match codec::spec_b64std_decode(encode_utf8(data)) {
                None => r matches Err(e) && e == AdapterError::MalformedResponse,
                Some(raw) => r matches Ok(v) && v@ == raw,
            },
        },
{
    match parse_pubsub_data(body) {
        None => Err(AdapterError::MalformedResponse),
        Some(None) => Err(AdapterError::MalformedResponse),
        Some(Some(data)) => match codec::base64std_decode(data.as_str().as_bytes()) {
            None => Err(AdapterError::MalformedResponse),
            Some(raw) => Ok(raw),
        },
    }
}

/// The `client_email`, `private_key` and `token_uri` strings of a stored
/// service-account key, if it is valid JSON.
pub uninterp spec fn google_service_account_of(key: Seq<u8>) -> Option<
    (Option<Seq<char>>, Option<Seq<char>>, Option<Seq<char>>),
>;

/// Relies on serde_json::from_slice and Value::as_str: reads the
/// `client_email`, `private_key` and `token_uri` string fields of a JSON
/// object.
#[verifier::external_body]
fn parse_service_account(key: &[u8]) -> (r: Option<
    (Option<String>, Option<String>, Option<String>),
>)
    ensures
        r.deep_view() == google_service_account_of(key@),
{
    let v: serde_json::Value = serde_json::from_slice(key).ok()?;
    Some((
        v["client_email"].as_str().map(|s| s.to_string()),
        v["private_key"].as_str().map(|s| s.to_string()),
        v["token_uri"].as_str().map(|s| s.to_string()),
    ))
}

/// The `access_token` string of a token-endpoint response, if the body is
/// valid JSON.
pub uninterp spec fn google_access_token_of(body: Seq<u8>) -> Option<Option<Seq<char>>>;

/// Relies on serde_json::from_slice and Value::as_str: reads the
/// `access_token` string field of a JSON object.
#[verifier::external_body]
fn parse_access_token(body: &[u8]) -> (r: Option<Option<String>>)
    ensures
        r.deep_view() == google_access_token_of(body@),
{
    let v: serde_json::Value = serde_json::from_slice(body).ok()?;
    Some(v["access_token"].as_str().map(|s| s.to_string()))
}

/// Builds the assertion to trade for an access token at the key's own token
/// endpoint: reads the stored service-account key and signs the
/// publisher-scope claims. Key material that does not parse, or misses a
/// field, is invalid; a minted assertion decodes back to its claims.
pub fn prepare_token_request(service_account_key: &[u8], now: u64) -> (r: Result<
    (String, String),
    SigningError,
>)
    requires
        now <= u64::MAX - signer::GOOGLE_ASSERTION_LIFETIME,
    ensures
        match google_service_account_of(service_account_key@) {
            Some((Some(email), Some(pk), Some(uri))) => r matches Ok((assertion, token_uri))
                ==> token_uri@ == uri && codec::spec_decode(encode_utf8(assertion@)) == Some(
                signer::spec_google_claims(
                    email,
                    uri,
                    now as nat,
                    (now + signer::GOOGLE_ASSERTION_LIFETIME) as nat,
                ),
            ),
            _ => r matches Err(e) && e == SigningError::InvalidKey,
        },
{
    match parse_service_account(service_account_key) {
        Some((Some(email), Some(pk), Some(uri))) => {
            let assertion = match signer::google_assertion(
                email.as_str(),
                uri.as_str(),
                pk.as_str(),
                now,
            ) {
                Err(e) => {
                    return Err(e);
                },
                Ok(a) => a,
            };
            Ok((assertion, uri))
        },
        _ => Err(SigningError::InvalidKey),
    }
}

/// Reads a token-endpoint response to the bearer token it grants.
pub fn access_token_from_response(body: &[u8]) -> (r: Result<String, AdapterError>)
    ensures
        match google_access_token_of(body@) {
            Some(Some(token)) => r matches Ok(t) && t@ == token,
            _ => r matches Err(e) && e == AdapterError::MalformedResponse,
        },
{
    match parse_access_token(body) {
        Some(Some(token)) => Ok(token),
        _ => Err(AdapterError::MalformedResponse),
    }
}

/// The status URL of one purchase token under the application's package.
pub fn google_subscription_url(package_name: &str, purchase_token: &str) -> (r: String)
    ensures
        r@ == "https://androidpublisher.googleapis.com/androidpublisher/v3/applications/"@
            + package_name@ + "/purchases/subscriptionsv2/tokens/"@ + purchase_token@,
{
    let mut url = String::from_str(
        "https://androidpublisher.googleapis.com/androidpublisher/v3/applications/",
    );
    url.append(package_name);
    url.append("/purchases/subscriptionsv2/tokens/");
    url.append(purchase_token);
    url
}

} // verus!
