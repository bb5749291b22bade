//! Apple store adapter: reads the vendor's signed push notifications and
//! transaction-status responses into the normalized model.
//!
//! The vendor wraps everything of interest in signed three-segment tokens
//! whose payloads this module decodes with `crate::codec`; the JSON shells
//! around them are read through trusted `serde_json` wrappers.

use crate::codec;
use crate::errors::AdapterError;
use crate::strutil::{or_empty, str_eq, unwrap_or_empty};
use crate::types::{AppleEnvironment, Store, TransactionEvent, TransactionStatus, VerifiedTransaction};
use crate::types::{apple_base_url, spec_apple_base_url};
use vstd::prelude::*;
use vstd::utf8::encode_utf8;

verus! {

/// The `signedPayload` string of an Apple notification body, if the body is
/// valid JSON; the inner option is the field's presence.
pub uninterp spec fn apple_signed_payload_of(body: Seq<u8>) -> Option<Option<Seq<char>>>;

/// Relies on serde_json::from_slice and Value::as_str: reads the
/// `signedPayload` string field of a JSON object.
#[verifier::external_body]
fn parse_signed_payload(body: &[u8]) -> (r: Option<Option<String>>)
    ensures
        r.deep_view() == apple_signed_payload_of(body@),
{
    let v: serde_json::Value = serde_json::from_slice(body).ok()?;
    Some(v["signedPayload"].as_str().map(|s| s.to_string()))
}

/// The `signedTransactionInfo` string of an Apple transaction-status
/// response, if the body is valid JSON.
pub uninterp spec fn apple_signed_transaction_info_of(body: Seq<u8>) -> Option<Option<Seq<char>>>;

/// Relies on serde_json::from_slice and Value::as_str: reads the
/// `signedTransactionInfo` string field of a JSON object.
#[verifier::external_body]
fn parse_signed_transaction_info(body: &[u8]) -> (r: Option<Option<String>>)
    ensures
        r.deep_view() == apple_signed_transaction_info_of(body@),
{
    let v: serde_json::Value = serde_json::from_slice(body).ok()?;
    Some(v["signedTransactionInfo"].as_str().map(|s| s.to_string()))
}

/// The `notificationType` and `data.signedTransactionInfo` strings of a
/// decoded Apple notification payload, if it is valid JSON.
pub uninterp spec fn apple_notification_of(payload: Seq<u8>) -> Option<
    (Option<Seq<char>>, Option<Seq<char>>),
>;

/// Relies on serde_json::from_slice and Value::as_str: reads the
/// `notificationType` and `data.signedTransactionInfo` string fields of a
/// JSON object.
#[verifier::external_body]
fn parse_apple_notification(payload: &[u8]) -> (r: Option<(Option<String>, Option<String>)>)
    ensures
        r.deep_view() == apple_notification_of(payload@),
{
    let v: serde_json::Value = serde_json::from_slice(payload).ok()?;
    Some((
        v["notificationType"].as_str().map(|s| s.to_string()),
        v["data"]["signedTransactionInfo"].as_str().map(|s| s.to_string()),
    ))
}

/// The `transactionId`, `productId`, `purchaseDate` and `expiresDate`
/// strings of a decoded Apple transaction payload, if it is valid JSON.
pub uninterp spec fn apple_claims_of(payload: Seq<u8>) -> Option<
    (Option<Seq<char>>, Option<Seq<char>>, Option<Seq<char>>, Option<Seq<char>>),
>;

/// Relies on serde_json::from_slice and Value::as_str: reads the
/// `transactionId`, `productId`, `purchaseDate` and `expiresDate` string
/// fields of a JSON object.
#[verifier::external_body]
fn parse_apple_claims(payload: &[u8]) -> (r: Option<
    (Option<String>, Option<String>, Option<String>, Option<String>),
>)
    ensures
        r.deep_view() == apple_claims_of(payload@),
{
    let v: serde_json::Value = serde_json::from_slice(payload).ok()?;
    Some((
        v["transactionId"].as_str().map(|s| s.to_string()),
        v["productId"].as_str().map(|s| s.to_string()),
        v["purchaseDate"].as_str().map(|s| s.to_string()),
        v["expiresDate"].as_str().map(|s| s.to_string()),
    ))
}

/// The shared event vocabulary an Apple notification code maps to;
/// unrecognized codes pass through unchanged.
pub open spec fn spec_apple_event_kind(code: Seq<char>) -> Seq<char> {
    if code == "DID_RENEW"@ {
        "RENEWAL"@
    } else if code == "EXPIRED"@ {
        "EXPIRATION"@
    } else if code == "DID_FAIL_TO_RENEW"@ {
        "BILLING_ISSUE_DETECTED"@
    } else if code == "REFUND"@ {
        "REFUND"@
    } else if code == "SUBSCRIBED"@ || code == "INITIAL_BUY"@ {
        "INITIAL_PURCHASE"@
    } else if code == "DID_CHANGE_RENEWAL_STATUS"@ {
        "CANCELLATION"@
    } else {
        code
    }
}

/// Maps an Apple notification code to the shared event vocabulary.
pub fn apple_event_kind(code: &str) -> (r: String)
    ensures
        r@ == spec_apple_event_kind(code@),
{
    if str_eq(code, "DID_RENEW") {
        String::from_str("RENEWAL")
    } else if str_eq(code, "EXPIRED") {
        String::from_str("EXPIRATION")
    } else if str_eq(code, "DID_FAIL_TO_RENEW") {
        String::from_str("BILLING_ISSUE_DETECTED")
    } else if str_eq(code, "REFUND") {
        String::from_str("REFUND")
    } else if str_eq(code, "SUBSCRIBED") || str_eq(code, "INITIAL_BUY") {
        String::from_str("INITIAL_PURCHASE")
    } else if str_eq(code, "DID_CHANGE_RENEWAL_STATUS") {
        String::from_str("CANCELLATION")
    } else {
        code.to_owned()
    }
}

/// The transaction snapshot an Apple payload's claims yield: missing strings
/// default to empty, the reported status is taken as `Active`.
pub fn apple_transaction_from_claims(
    transaction_id: Option<String>,
    product_id: Option<String>,
    purchase_date: Option<String>,
    expires_date: Option<String>,
) -> (t: VerifiedTransaction)
    ensures
        t.store_transaction_id@ == or_empty(transaction_id.deep_view()),
        t.product_id@ == or_empty(product_id.deep_view()),
        t.purchase_date@ == or_empty(purchase_date.deep_view()),
        t.expiration_date.deep_view() == expires_date.deep_view(),
        t.status == TransactionStatus::Active,
        t.store == Store::Apple,
{
    VerifiedTransaction {
        store_transaction_id: unwrap_or_empty(transaction_id),
        product_id: unwrap_or_empty(product_id),
        purchase_date: unwrap_or_empty(purchase_date),
        expiration_date: expires_date,
        status: TransactionStatus::Active,
        store: Store::Apple,
    }
}

/// What reading an Apple transaction-status response must yield: the claims
/// of the nested signed transaction, or the precise error.
pub open spec fn spec_apple_status_outcome(body: Seq<u8>) -> Result<
    (Option<Seq<char>>, Option<Seq<char>>, Option<Seq<char>>, Option<Seq<char>>),
    AdapterError,
> {
    match apple_signed_transaction_info_of(body) {
        None => Err(AdapterError::MalformedResponse),
        Some(None) => Err(AdapterError::MalformedResponse),
        Some(Some(token)) => match codec::spec_decode(encode_utf8(token)) {
            None => Err(AdapterError::MalformedToken),
            Some(payload) => match apple_claims_of(payload) {
                None => Err(AdapterError::MalformedResponse),
                Some(claims) => Ok(claims),
            },
        },
    }
}

/// Reads a success body of the vendor's transaction-status endpoint: decodes
/// the nested signed transaction and returns its snapshot.
pub fn transaction_from_status_response(body: &[u8]) -> (r: Result<
    VerifiedTransaction,
    AdapterError,
>)
    ensures
        match spec_apple_status_outcome(body@) {
            Ok((tid, pid, pd, ed)) => r matches Ok(t) && t.store_transaction_id@ == or_empty(tid)
                && t.product_id@ == or_empty(pid) && t.purchase_date@ == or_empty(pd)
                && t.expiration_date.deep_view() == ed && t.status == TransactionStatus::Active
                && t.store == Store::Apple,
            Err(e) => r matches Err(e2) && e2 == e,
        },
{
    let token = match parse_signed_transaction_info(body) {
        None => {
            return Err(AdapterError::MalformedResponse);
        },
        Some(None) => {
            return Err(AdapterError::MalformedResponse);
        },
        Some(Some(token)) => token,
    };
    let payload = match codec::decode(token.as_str().as_bytes()) {
        Err(_) => {
            return Err(AdapterError::MalformedToken);
        },
        Ok(p) => p,
    };
    match parse_apple_claims(payload.as_slice()) {
        None => Err(AdapterError::MalformedResponse),
        Some((tid, pid, pd, ed)) => Ok(apple_transaction_from_claims(tid, pid, pd, ed)),
    }
}

/// What processing an Apple notification must yield: nothing, one event's
/// kind and claims, or the precise error.
pub open spec fn spec_apple_notification_outcome(body: Seq<u8>) -> Result<
    Option<(Seq<char>, Option<Seq<char>>, Option<Seq<char>>, Option<Seq<char>>, Option<Seq<char>>)>,
    AdapterError,
> {
    match apple_signed_payload_of(body) {
        None => Err(AdapterError::MalformedResponse),
        Some(None) => Err(AdapterError::MalformedResponse),
        Some(Some(signed)) => match codec::spec_decode(encode_utf8(signed)) {
            None => Err(AdapterError::MalformedToken),
            Some(payload) => match apple_notification_of(payload) {
                None => Err(AdapterError::MalformedResponse),
                Some((code, nested)) => {
                    let kind = spec_apple_event_kind(
                        match code {
                            Some(c) => c,
                            None => "UNKNOWN"@,
                        },
                    );
                    match nested {
                        None => Ok(None),
                        Some(token) => match codec::spec_payload_segment(encode_utf8(token)) {
                            None => Ok(None),
                            Some(segment) => match codec::spec_b64_decode(segment) {
                                None => Err(AdapterError::MalformedToken),
                                Some(tx_payload) => match apple_claims_of(tx_payload) {
                                    None => Err(AdapterError::MalformedResponse),
                                    Some((tid, pid, pd, ed)) => Ok(Some((kind, tid, pid, pd, ed))),
                                },
                            },
                        },
                    }
                },
            },
        },
    }
}

/// Processes one Apple push notification: decodes the signed payload, maps
/// its code to the shared vocabulary, and, when a signed transaction is
/// nested inside, decodes it into the event's snapshot. A well-formed
/// notification without a nested transaction yields no events.
pub fn process_notification(body: &[u8]) -> (r: Result<Vec<TransactionEvent>, AdapterError>)
    ensures
        match spec_apple_notification_outcome(body@) {
            Ok(None) => r matches Ok(events) && events@.len() == 0,
            Ok(Some((kind, tid, pid, pd, ed))) => r matches Ok(events) && events@.len() == 1 && {
                let ev = events@[0];
                &&& ev.event_type@ == kind
                &&& ev.transaction.store_transaction_id@ == or_empty(tid)
                &&& ev.transaction.product_id@ == or_empty(pid)
                &&& ev.transaction.purchase_date@ == or_empty(pd)
                &&& ev.transaction.expiration_date.deep_view() == ed
                &&& ev.transaction.status == TransactionStatus::Active
                &&& ev.transaction.store == Store::Apple
            },
            Err(e) => r matches Err(e2) && e2 == e,
        },
{
    let signed = match parse_signed_payload(body) {
        None => {
            return Err(AdapterError::MalformedResponse);
        },
        Some(None) => {
            return Err(AdapterError::MalformedResponse);
        },
        Some(Some(signed)) => signed,
    };
    let payload = match codec::decode(signed.as_str().as_bytes()) {
        Err(_) => {
            return Err(AdapterError::MalformedToken);
        },
        Ok(p) => p,
    };
    let (code, nested) = match parse_apple_notification(payload.as_slice()) {
        None => {
            return Err(AdapterError::MalformedResponse);
        },
        Some(fields) => fields,
    };
    let kind = match code {
        Some(c) => apple_event_kind(c.as_str()),
        None => apple_event_kind("UNKNOWN"),
    };
    let token = match nested {
        None => {
            return Ok(Vec::new());
        },
        Some(token) => token,
    };
    let segment = match codec::split_segments(token.as_str().as_bytes()) {
        None => {
            return Ok(Vec::new());
        },
        Some((_h, p, _s)) => p,
    };
    let tx_payload = match codec::base64url_decode(segment.as_slice()) {
        None => {
            return Err(AdapterError::MalformedToken);
        },
        Some(p) => p,
    };
    match parse_apple_claims(tx_payload.as_slice()) {
        None => Err(AdapterError::MalformedResponse),
        Some((tid, pid, pd, ed)) => {
            let mut events: Vec<TransactionEvent> = Vec::new();
            events.push(
                TransactionEvent {
                    event_type: kind,
                    transaction: apple_transaction_from_claims(tid, pid, pd, ed),
                },
            );
            Ok(events)
        },
    }
}

/// The status URL of one transaction in an Apple environment.
pub fn apple_transaction_url(env: &AppleEnvironment, transaction_id: &str) -> (r: String)
    ensures
        r@ == spec_apple_base_url(*env) + "/inApps/v1/transactions/"@ + transaction_id@,
{
    let mut url = String::from_str(apple_base_url(env));
    url.append("/inApps/v1/transactions/");
    url.append(transaction_id);
    url
}

} // verus!
