use opencat::delivery::{
    endpoint_is_active, is_due, new_delivery, next_retry_delay, select_due_batch, DeliveryStatus,
    WebhookDelivery,
};
use opencat::errors::AdapterError;
use opencat::models::WebhookEndpoint;
use opencat::types::{Store, TransactionStatus};

fn endpoint(id: &str, active: i32) -> WebhookEndpoint {
    WebhookEndpoint {
        id: id.to_string(),
        app_id: "app1".to_string(),
        url: "https://example.com/hook".to_string(),
        secret: "hook-secret".to_string(),
        active,
        created_at: "2024-01-01T00:00:00Z".to_string(),
    }
}

#[test]
fn backoff_table_values() {
    assert_eq!(next_retry_delay(1), 1);
    assert_eq!(next_retry_delay(2), 5);
    assert_eq!(next_retry_delay(3), 30);
    assert_eq!(next_retry_delay(4), 120);
    assert_eq!(next_retry_delay(5), 600);
    assert_eq!(next_retry_delay(6), 3600);
    assert_eq!(next_retry_delay(7), 3600);
    assert_eq!(next_retry_delay(100), 3600);
}

#[test]
fn nine_failures_then_dead_letter() {
    let mut d = new_delivery("d1".to_string(), "e1".to_string(), "ev1".to_string());
    assert_eq!(d.status, DeliveryStatus::Pending);
    assert_eq!(d.attempts, 0);
    let mut last_retry: u64 = 0;
    for n in 1..=9u32 {
        let now = 1000 * n as u64;
        d.record_attempt(Err("HTTP 500".to_string()), now);
        assert_eq!(d.status, DeliveryStatus::Failed);
        assert_eq!(d.attempts, n);
        assert_eq!(d.last_attempt_at, Some(now));
        assert_eq!(d.last_error.as_deref(), Some("HTTP 500"));
        let retry = d.next_retry_at.unwrap();
        assert_eq!(retry, now + next_retry_delay(n));
        assert!(retry > last_retry);
        last_retry = retry;
    }
    d.record_attempt(Err("HTTP 500".to_string()), 10_000);
    assert_eq!(d.status, DeliveryStatus::DeadLetter);
    assert_eq!(d.attempts, 10);
    assert_eq!(d.next_retry_at, None);
}

#[test]
fn success_clears_retry_state() {
    let mut d = new_delivery("d1".to_string(), "e1".to_string(), "ev1".to_string());
    d.record_attempt(Err("HTTP 503".to_string()), 10);
    assert_eq!(d.status, DeliveryStatus::Failed);
    assert!(d.next_retry_at.is_some());
    d.record_attempt(Ok(()), 20);
    assert_eq!(d.status, DeliveryStatus::Delivered);
    assert_eq!(d.attempts, 2);
    assert_eq!(d.last_attempt_at, Some(20));
    assert_eq!(d.next_retry_at, None);
}

#[test]
fn due_only_when_pending_or_elapsed() {
    let d = new_delivery("d1".to_string(), "e1".to_string(), "ev1".to_string());
    assert!(is_due(&d, 0));
    let mut f = new_delivery("d2".to_string(), "e1".to_string(), "ev1".to_string());
    f.record_attempt(Err("HTTP 500".to_string()), 100);
    let retry = f.next_retry_at.unwrap();
    assert!(!is_due(&f, retry - 1));
    assert!(is_due(&f, retry));
    let mut ok = new_delivery("d3".to_string(), "e1".to_string(), "ev1".to_string());
    ok.record_attempt(Ok(()), 100);
    assert!(!is_due(&ok, u64::MAX - 4000));
}

#[test]
fn batch_selects_due_rows_with_active_endpoints() {
    let endpoints = vec![endpoint("e-on", 1), endpoint("e-off", 0)];
    let mut rows: Vec<WebhookDelivery> = Vec::new();
    // due with active endpoint
    rows.push(new_delivery("d0".to_string(), "e-on".to_string(), "ev".to_string()));
    // due but endpoint inactive
    rows.push(new_delivery("d1".to_string(), "e-off".to_string(), "ev".to_string()));
    // due but endpoint unknown
    rows.push(new_delivery("d2".to_string(), "ghostless".to_string(), "ev".to_string()));
    // delivered: terminal, never selected
    let mut done = new_delivery("d3".to_string(), "e-on".to_string(), "ev".to_string());
    done.record_attempt(Ok(()), 5);
    rows.push(done);
    // failed with a retry still in the future
    let mut waiting = new_delivery("d4".to_string(), "e-on".to_string(), "ev".to_string());
    waiting.record_attempt(Err("HTTP 500".to_string()), 100);
    rows.push(waiting);
    // failed with its retry elapsed
    let mut ready = new_delivery("d5".to_string(), "e-on".to_string(), "ev".to_string());
    ready.record_attempt(Err("HTTP 500".to_string()), 0);
    rows.push(ready);

    let batch = select_due_batch(&rows, &endpoints, 100);
    assert_eq!(batch, vec![0, 5]);
}

#[test]
fn batch_stops_at_ten() {
    let endpoints = vec![endpoint("e-on", 1)];
    let mut rows: Vec<WebhookDelivery> = Vec::new();
    for i in 0..15 {
        rows.push(new_delivery(format!("d{i}"), "e-on".to_string(), "ev".to_string()));
    }
    let batch = select_due_batch(&rows, &endpoints, 0);
    assert_eq!(batch, (0..10).collect::<Vec<usize>>());
}

#[test]
fn endpoint_activity_lookup() {
    let endpoints = vec![endpoint("a", 0), endpoint("b", 1)];
    assert!(!endpoint_is_active(&endpoints, &"a".to_string()));
    assert!(endpoint_is_active(&endpoints, &"b".to_string()));
    assert!(!endpoint_is_active(&endpoints, &"c".to_string()));
}

#[test]
fn persisted_status_names() {
    assert_eq!(DeliveryStatus::Pending.as_str(), "pending");
    assert_eq!(DeliveryStatus::Delivered.as_str(), "delivered");
    assert_eq!(DeliveryStatus::Failed.as_str(), "failed");
    assert_eq!(DeliveryStatus::DeadLetter.as_str(), "dead_letter");
    assert_eq!(TransactionStatus::Active.as_str(), "active");
    assert_eq!(TransactionStatus::Expired.as_str(), "expired");
    assert_eq!(TransactionStatus::Refunded.as_str(), "refunded");
    assert_eq!(TransactionStatus::GracePeriod.as_str(), "grace_period");
    assert_eq!(TransactionStatus::BillingRetry.as_str(), "billing_retry");
    assert_eq!(Store::Apple.as_str(), "apple");
    assert_eq!(Store::Google.as_str(), "google");
}

#[test]
fn vendor_status_accepts_exactly_2xx() {
    assert!(opencat::errors::check_vendor_status(200).is_ok());
    assert!(opencat::errors::check_vendor_status(204).is_ok());
    assert!(opencat::errors::check_vendor_status(299).is_ok());
    assert_eq!(
        opencat::errors::check_vendor_status(199),
        Err(AdapterError::VendorUnavailable)
    );
    assert_eq!(
        opencat::errors::check_vendor_status(300),
        Err(AdapterError::VendorUnavailable)
    );
    assert_eq!(
        opencat::errors::check_vendor_status(500),
        Err(AdapterError::VendorUnavailable)
    );
}
