use opencat::apple::process_notification;
use opencat::codec::encode;
use opencat::delivery::{new_delivery, DeliveryStatus};
use opencat::models::{Entitlement, SubmitReceipt, Transaction, WebhookEndpoint};
use opencat::reconcile::{
    entitlements_for_subscriber, make_event_record, plan_deliveries, plan_receipt_submission,
};
use opencat::types::{Store, TransactionStatus};

fn endpoint(id: &str, active: i32) -> WebhookEndpoint {
    WebhookEndpoint {
        id: id.to_string(),
        app_id: "A".to_string(),
        url: "https://example.com/hook".to_string(),
        secret: "hook-secret".to_string(),
        active,
        created_at: "t0".to_string(),
    }
}

fn entitlement(id: &str, name: &str) -> Entitlement {
    Entitlement {
        id: id.to_string(),
        app_id: "A".to_string(),
        name: name.to_string(),
        description: None,
        created_at: "t0".to_string(),
    }
}

#[test]
fn receipt_creates_subscriber_and_active_transaction() {
    let input = SubmitReceipt {
        app_id: "A".to_string(),
        app_user_id: "U".to_string(),
        store: "apple".to_string(),
        receipt_data: "receipt-bytes".to_string(),
        product_id: "P".to_string(),
    };
    let (subscriber, tx) = plan_receipt_submission(
        &input,
        None,
        "sub-1".to_string(),
        "tx-1".to_string(),
        "t1".to_string(),
    );
    assert_eq!(subscriber.id, "sub-1");
    assert_eq!(subscriber.app_id, "A");
    assert_eq!(subscriber.app_user_id, "U");
    assert_eq!(tx.subscriber_id, "sub-1");
    assert_eq!(tx.product_id, "P");
    assert_eq!(tx.status, "active");
    assert_eq!(tx.store, "apple");
    assert_eq!(tx.store_transaction_id, "pending_verification_tx-1");
    assert_eq!(tx.raw_receipt.as_deref(), Some("receipt-bytes"));
}

#[test]
fn receipt_reuses_existing_subscriber() {
    let input = SubmitReceipt {
        app_id: "A".to_string(),
        app_user_id: "U".to_string(),
        store: "apple".to_string(),
        receipt_data: "r".to_string(),
        product_id: "P".to_string(),
    };
    let existing = opencat::models::Subscriber {
        id: "sub-0".to_string(),
        app_id: "A".to_string(),
        app_user_id: "U".to_string(),
        created_at: "t0".to_string(),
    };
    let (subscriber, tx) = plan_receipt_submission(
        &input,
        Some(existing),
        "sub-unused".to_string(),
        "tx-2".to_string(),
        "t2".to_string(),
    );
    assert_eq!(subscriber.id, "sub-0");
    assert_eq!(tx.subscriber_id, "sub-0");
}

#[test]
fn subscriber_lookup_reports_one_active_entitlement() {
    // a subscriber with one active transaction for product P, whose
    // entitlement is linked through the product
    let input = SubmitReceipt {
        app_id: "A".to_string(),
        app_user_id: "U".to_string(),
        store: "apple".to_string(),
        receipt_data: "r".to_string(),
        product_id: "P".to_string(),
    };
    let (_, tx) = plan_receipt_submission(
        &input,
        None,
        "sub-1".to_string(),
        "tx-1".to_string(),
        "t1".to_string(),
    );
    let transactions: Vec<Transaction> = vec![tx];
    let links = vec![("P".to_string(), "ent-pro".to_string())];
    let ents = vec![entitlement("ent-pro", "pro"), entitlement("ent-other", "other")];
    let active = entitlements_for_subscriber(&transactions, &links, &ents);
    assert_eq!(active.len(), 1);
    assert_eq!(active[0].id, "ent-pro");
    assert_eq!(active[0].name, "pro");
}

#[test]
fn inactive_transactions_grant_nothing() {
    let mut tx = Transaction {
        id: "tx".to_string(),
        subscriber_id: "s".to_string(),
        product_id: "P".to_string(),
        store: "apple".to_string(),
        store_transaction_id: "st".to_string(),
        purchase_date: "d".to_string(),
        expiration_date: None,
        status: "expired".to_string(),
        raw_receipt: None,
        created_at: "d".to_string(),
        updated_at: "d".to_string(),
    };
    let links = vec![("P".to_string(), "ent-pro".to_string())];
    let ents = vec![entitlement("ent-pro", "pro")];
    assert!(entitlements_for_subscriber(&vec![tx.clone()], &links, &ents).is_empty());
    tx.status = "active".to_string();
    assert_eq!(entitlements_for_subscriber(&vec![tx], &links, &ents).len(), 1);
}

#[test]
fn apple_renewal_reconciles_to_event_and_pending_delivery() {
    // an endpoint is registered, then an Apple renewal notification with a
    // nested signed transaction arrives
    let tx_claims = r#"{"transactionId":"T1","productId":"P1","purchaseDate":"d1"}"#;
    let nested = String::from_utf8(encode(b"h", tx_claims.as_bytes(), b"s")).unwrap();
    let payload = format!(
        r#"{{"notificationType":"DID_RENEW","data":{{"signedTransactionInfo":"{nested}"}}}}"#
    );
    let outer = String::from_utf8(encode(b"h", payload.as_bytes(), b"s")).unwrap();
    let body = format!(r#"{{"signedPayload":"{outer}"}}"#).into_bytes();

    let events = process_notification(&body).unwrap();
    assert_eq!(events.len(), 1);
    assert_eq!(events[0].event_type, "RENEWAL");
    assert_eq!(events[0].transaction.store_transaction_id, "T1");
    assert_eq!(events[0].transaction.store, Store::Apple);
    assert_eq!(events[0].transaction.status, TransactionStatus::Active);

    let record = make_event_record(
        "ev-1".to_string(),
        "sub-1".to_string(),
        events[0].event_type.clone(),
        payload.clone(),
        "t3".to_string(),
    );
    assert_eq!(record.event_type, "RENEWAL");

    let endpoints = vec![endpoint("ep-1", 1)];
    let pairs = plan_deliveries(&vec![record.id.clone()], &endpoints);
    assert_eq!(pairs, vec![("ev-1".to_string(), "ep-1".to_string())]);

    let delivery = new_delivery("d-1".to_string(), pairs[0].1.clone(), pairs[0].0.clone());
    assert_eq!(delivery.status, DeliveryStatus::Pending);
    assert_eq!(delivery.attempts, 0);
}

#[test]
fn deliveries_cross_events_with_active_endpoints() {
    let endpoints = vec![endpoint("e1", 1), endpoint("e2", 0), endpoint("e3", 1)];
    let events = vec!["ev1".to_string(), "ev2".to_string()];
    let pairs = plan_deliveries(&events, &endpoints);
    assert_eq!(
        pairs,
        vec![
            ("ev1".to_string(), "e1".to_string()),
            ("ev1".to_string(), "e3".to_string()),
            ("ev2".to_string(), "e1".to_string()),
            ("ev2".to_string(), "e3".to_string()),
        ]
    );
    // no active endpoint: the event is recorded, delivery is skipped
    assert!(plan_deliveries(&events, &vec![endpoint("e2", 0)]).is_empty());
    assert!(plan_deliveries(&vec![], &endpoints).is_empty());
}
