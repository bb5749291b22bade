use base64::Engine;
use opencat::errors::{AdapterError, SigningError};
use opencat::google::{
    access_token_from_response, decode_notification, google_event_kind, google_status,
    google_subscription_url, make_event, prepare_token_request,
    transaction_from_subscription_response, unwrap_pubsub,
};
use opencat::types::{Store, TransactionStatus};

#[test]
fn google_event_kind_table() {
    assert_eq!(google_event_kind(1), "SUBSCRIPTION_RECOVERED");
    assert_eq!(google_event_kind(2), "RENEWAL");
    assert_eq!(google_event_kind(3), "CANCELLATION");
    assert_eq!(google_event_kind(4), "INITIAL_PURCHASE");
    assert_eq!(google_event_kind(5), "ACCOUNT_HOLD");
    assert_eq!(google_event_kind(6), "GRACE_PERIOD");
    assert_eq!(google_event_kind(7), "RESTARTED");
    assert_eq!(google_event_kind(12), "REFUND");
    assert_eq!(google_event_kind(13), "EXPIRATION");
    // codes outside the table, unlike the other vendor's, collapse to UNKNOWN
    assert_eq!(google_event_kind(0), "UNKNOWN");
    assert_eq!(google_event_kind(8), "UNKNOWN");
    assert_eq!(google_event_kind(-1), "UNKNOWN");
    assert_eq!(google_event_kind(99), "UNKNOWN");
}

#[test]
fn google_status_table_and_fallback() {
    assert_eq!(google_status("SUBSCRIPTION_STATE_ACTIVE"), TransactionStatus::Active);
    assert_eq!(google_status("SUBSCRIPTION_STATE_EXPIRED"), TransactionStatus::Expired);
    assert_eq!(google_status("SUBSCRIPTION_STATE_GRACE_PERIOD"), TransactionStatus::GracePeriod);
    assert_eq!(google_status("SUBSCRIPTION_STATE_ON_HOLD"), TransactionStatus::BillingRetry);
    // the deliberate fallback: anything else reads as active
    assert_eq!(google_status("SUBSCRIPTION_STATE_PAUSED"), TransactionStatus::Active);
    assert_eq!(google_status(""), TransactionStatus::Active);
}

#[test]
fn notification_decodes_kind_and_token() {
    let body =
        br#"{"subscriptionNotification":{"notificationType":2,"purchaseToken":"tok-1"}}"#;
    let (kind, token) = decode_notification(body).unwrap();
    assert_eq!(kind, "RENEWAL");
    assert_eq!(token, "tok-1");
}

#[test]
fn notification_without_code_is_unknown() {
    let body = br#"{"subscriptionNotification":{"purchaseToken":"tok-2"}}"#;
    let (kind, token) = decode_notification(body).unwrap();
    assert_eq!(kind, "UNKNOWN");
    assert_eq!(token, "tok-2");
}

#[test]
fn google_notification_errors_are_precise() {
    assert_eq!(decode_notification(b"not json"), Err(AdapterError::MalformedResponse));
    let no_token = br#"{"subscriptionNotification":{"notificationType":2}}"#;
    assert_eq!(decode_notification(no_token), Err(AdapterError::MalformedResponse));
}

#[test]
fn subscription_response_maps_fields() {
    let body = br#"{
        "subscriptionState":"SUBSCRIPTION_STATE_GRACE_PERIOD",
        "startTime":"2024-02-01T00:00:00Z",
        "lineItems":[{"productId":"P5","expiryTime":"2024-03-01T00:00:00Z"}]
    }"#;
    let t = transaction_from_subscription_response("tok-5", body).unwrap();
    assert_eq!(t.store_transaction_id, "tok-5");
    assert_eq!(t.product_id, "P5");
    assert_eq!(t.purchase_date, "2024-02-01T00:00:00Z");
    assert_eq!(t.expiration_date.as_deref(), Some("2024-03-01T00:00:00Z"));
    assert_eq!(t.status, TransactionStatus::GracePeriod);
    assert_eq!(t.store, Store::Google);
}

#[test]
fn subscription_response_defaults_missing_fields() {
    let t = transaction_from_subscription_response("tok-6", b"{}").unwrap();
    assert_eq!(t.store_transaction_id, "tok-6");
    assert_eq!(t.product_id, "");
    assert_eq!(t.purchase_date, "");
    assert_eq!(t.expiration_date, None);
    assert_eq!(t.status, TransactionStatus::Active);
    assert_eq!(
        transaction_from_subscription_response("tok", b"]["),
        Err(AdapterError::MalformedResponse)
    );
}

#[test]
fn event_wraps_transaction() {
    let t = transaction_from_subscription_response("tok-7", b"{}").unwrap();
    let events = make_event("RENEWAL".to_string(), t);
    assert_eq!(events.len(), 1);
    assert_eq!(events[0].event_type, "RENEWAL");
    assert_eq!(events[0].transaction.store_transaction_id, "tok-7");
}

#[test]
fn pubsub_envelope_unwraps() {
    let inner = br#"{"subscriptionNotification":{"notificationType":4,"purchaseToken":"t"}}"#;
    let data = base64::engine::general_purpose::STANDARD.encode(inner);
    let body = format!(r#"{{"message":{{"data":"{data}"}}}}"#).into_bytes();
    let unwrapped = unwrap_pubsub(&body).unwrap();
    assert_eq!(unwrapped, inner.to_vec());
    let (kind, token) = decode_notification(&unwrapped).unwrap();
    assert_eq!(kind, "INITIAL_PURCHASE");
    assert_eq!(token, "t");
}

#[test]
fn pubsub_errors_are_precise() {
    assert_eq!(unwrap_pubsub(b"no json"), Err(AdapterError::MalformedResponse));
    assert_eq!(unwrap_pubsub(br#"{"message":{}}"#), Err(AdapterError::MalformedResponse));
    let bad_b64 = br#"{"message":{"data":"!!!"}}"#;
    assert_eq!(unwrap_pubsub(bad_b64), Err(AdapterError::MalformedResponse));
}

#[test]
fn access_token_extraction() {
    let body = br#"{"access_token":"ya29.abc","expires_in":3599}"#;
    assert_eq!(access_token_from_response(body).unwrap(), "ya29.abc");
    assert_eq!(access_token_from_response(b"{}"), Err(AdapterError::MalformedResponse));
    assert_eq!(access_token_from_response(b"x"), Err(AdapterError::MalformedResponse));
}

#[test]
fn subscription_url_shape() {
    assert_eq!(
        google_subscription_url("com.example.app", "tok"),
        "https://androidpublisher.googleapis.com/androidpublisher/v3/applications/com.example.app/purchases/subscriptionsv2/tokens/tok"
    );
}

#[test]
fn token_request_rejects_bad_key_material() {
    assert_eq!(prepare_token_request(b"not json", 1000), Err(SigningError::InvalidKey));
    let missing = br#"{"client_email":"svc@example.com"}"#;
    assert_eq!(prepare_token_request(missing, 1000), Err(SigningError::InvalidKey));
    let bad_pem = br#"{"client_email":"svc@example.com","private_key":"garbage","token_uri":"https://oauth2.googleapis.com/token"}"#;
    assert_eq!(prepare_token_request(bad_pem, 1000), Err(SigningError::InvalidKey));
}
