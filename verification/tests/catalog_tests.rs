use opencat::catalog::{
    data_ids, first_price_link, iap_items, iap_product, iap_type, intro_offer_from_response,
    localization_choice, period_from_response, period_iso, price_from_parts, price_micros,
    price_point, select_localization, subscription_items, subscription_product,
    territory_currency, trial_iso,
};
use opencat::errors::AdapterError;

#[test]
fn period_table() {
    assert_eq!(period_iso("ONE_WEEK"), "P1W");
    assert_eq!(period_iso("ONE_MONTH"), "P1M");
    assert_eq!(period_iso("TWO_MONTHS"), "P2M");
    assert_eq!(period_iso("THREE_MONTHS"), "P3M");
    assert_eq!(period_iso("SIX_MONTHS"), "P6M");
    assert_eq!(period_iso("ONE_YEAR"), "P1Y");
    // unrecognized literals pass through verbatim
    assert_eq!(period_iso("P2W"), "P2W");
    assert_eq!(period_iso("FOUR_MONTHS"), "FOUR_MONTHS");
}

#[test]
fn trial_table() {
    assert_eq!(trial_iso("THREE_DAYS"), "P3D");
    assert_eq!(trial_iso("ONE_WEEK"), "P1W");
    assert_eq!(trial_iso("TWO_WEEKS"), "P2W");
    assert_eq!(trial_iso("ONE_MONTH"), "P1M");
    assert_eq!(trial_iso("TWO_MONTHS"), "P2M");
    assert_eq!(trial_iso("THREE_MONTHS"), "P3M");
    assert_eq!(trial_iso("SIX_MONTHS"), "P6M");
    assert_eq!(trial_iso("ONE_YEAR"), "P1Y");
    assert_eq!(trial_iso("SOMETHING"), "SOMETHING");
}

#[test]
fn iap_type_table() {
    assert_eq!(iap_type("CONSUMABLE"), "consumable");
    assert_eq!(iap_type("NON_CONSUMABLE"), "non_consumable");
    assert_eq!(iap_type("NON_RENEWING_SUBSCRIPTION"), "consumable");
}

#[test]
fn price_micros_values() {
    assert_eq!(price_micros("9.99"), 9_990_000);
    assert_eq!(price_micros("0"), 0);
    assert_eq!(price_micros("0.00"), 0);
    assert_eq!(price_micros("129"), 129_000_000);
    assert_eq!(price_micros("1.5"), 1_500_000);
    assert_eq!(price_micros("12."), 12_000_000);
    assert_eq!(price_micros(".5"), 500_000);
    // fraction digits beyond micros are truncated
    assert_eq!(price_micros("12.3456789"), 12_345_678);
    assert_eq!(price_micros("0.000001"), 1);
    assert_eq!(price_micros("0.0000009"), 0);
}

#[test]
fn price_micros_rejects_non_decimals() {
    assert_eq!(price_micros(""), 0);
    assert_eq!(price_micros("."), 0);
    assert_eq!(price_micros("abc"), 0);
    assert_eq!(price_micros("1.2.3"), 0);
    assert_eq!(price_micros("-1"), 0);
    assert_eq!(price_micros("1e3"), 0);
    assert_eq!(price_micros("9,99"), 0);
}

#[test]
fn price_micros_saturates() {
    assert_eq!(price_micros("9223372036854.775807"), i64::MAX);
    assert_eq!(price_micros("9223372036854.775808"), i64::MAX);
    assert_eq!(price_micros("99999999999999999999999999"), i64::MAX);
    assert_eq!(price_micros("9223372036853.999999"), 9_223_372_036_853_999_999);
}

#[test]
fn localization_prefers_en_us() {
    let locs = vec![
        (Some("de-DE".to_string()), Some("Profi".to_string()), Some("Beschreibung".to_string())),
        (Some("en-US".to_string()), Some("Pro".to_string()), Some("Description".to_string())),
    ];
    let (name, desc) = select_localization(&locs).unwrap();
    assert_eq!(name, "Pro");
    assert_eq!(desc.as_deref(), Some("Description"));
}

#[test]
fn localization_falls_back_to_first() {
    let locs = vec![
        (Some("de-DE".to_string()), Some("Profi".to_string()), None),
        (Some("fr-FR".to_string()), Some("Pro FR".to_string()), None),
    ];
    let (name, desc) = select_localization(&locs).unwrap();
    assert_eq!(name, "Profi");
    assert_eq!(desc, None);
    assert!(select_localization(&vec![]).is_none());
}

#[test]
fn subscription_product_applies_defaults() {
    let p = subscription_product(
        Some("com.example.pro".to_string()),
        Some("Pro".to_string()),
        None,
        None,
        Some("P1M".to_string()),
        None,
    );
    assert_eq!(p.store_product_id, "com.example.pro");
    assert_eq!(p.display_name, "Pro");
    assert_eq!(p.description, None);
    assert_eq!(p.price_micros, 0);
    assert_eq!(p.currency, "USD");
    assert_eq!(p.subscription_period.as_deref(), Some("P1M"));
    assert_eq!(p.trial_period, None);
    assert_eq!(p.product_type, "subscription");
}

#[test]
fn subscription_product_uses_localization_and_price() {
    let p = subscription_product(
        Some("com.example.pro".to_string()),
        Some("Pro".to_string()),
        Some(("Pro Monthly".to_string(), Some("All features".to_string()))),
        Some((9_990_000, "EUR".to_string())),
        Some("P1M".to_string()),
        Some("P3D".to_string()),
    );
    assert_eq!(p.display_name, "Pro Monthly");
    assert_eq!(p.description.as_deref(), Some("All features"));
    assert_eq!(p.price_micros, 9_990_000);
    assert_eq!(p.currency, "EUR");
    assert_eq!(p.trial_period.as_deref(), Some("P3D"));
}

#[test]
fn subscription_name_falls_back_to_product_id() {
    let p = subscription_product(Some("sku1".to_string()), None, None, None, None, None);
    assert_eq!(p.display_name, "sku1");
}

#[test]
fn iap_product_shape() {
    let p = iap_product(
        Some("com.example.coins".to_string()),
        Some("Coins".to_string()),
        Some("NON_CONSUMABLE".to_string()),
    );
    assert_eq!(p.store_product_id, "com.example.coins");
    assert_eq!(p.display_name, "Coins");
    assert_eq!(p.product_type, "non_consumable");
    assert_eq!(p.price_micros, 0);
    assert_eq!(p.currency, "USD");
    let fallback = iap_product(Some("sku2".to_string()), None, None);
    assert_eq!(fallback.display_name, "sku2");
    assert_eq!(fallback.product_type, "consumable");
}

#[test]
fn price_parts_defaults() {
    let (m, c) = price_from_parts(Some("4.49".to_string()), Some("GBP".to_string()));
    assert_eq!((m, c.as_str()), (4_490_000, "GBP"));
    let (m, c) = price_from_parts(None, None);
    assert_eq!((m, c.as_str()), (0, "USD"));
}

#[test]
fn listing_ids_extraction() {
    let body = br#"{"data":[{"id":"g1"},{"id":"g2"},{"noid":true}]}"#;
    assert_eq!(data_ids(body).unwrap(), vec!["g1", "g2", ""]);
    let empty = br#"{"data":[]}"#;
    assert!(data_ids(empty).unwrap().is_empty());
    let no_data = br#"{}"#;
    assert!(data_ids(no_data).unwrap().is_empty());
    assert_eq!(data_ids(b"not json"), Err(AdapterError::MalformedResponse));
}

#[test]
fn subscription_listing_extraction() {
    let body = br#"{"data":[
        {"id":"s1","attributes":{"productId":"com.example.pro","name":"Pro"}},
        {"id":"s2","attributes":{}}
    ]}"#;
    let items = subscription_items(body).unwrap();
    assert_eq!(
        items,
        vec![
            (Some("s1".to_string()), Some("com.example.pro".to_string()), Some("Pro".to_string())),
            (Some("s2".to_string()), None, None),
        ]
    );
    assert_eq!(subscription_items(b"bad"), Err(AdapterError::MalformedResponse));
}

#[test]
fn localization_listing_extraction() {
    let body = br#"{"data":[
        {"attributes":{"locale":"de-DE","name":"Profi","description":"Alles"}},
        {"attributes":{"locale":"en-US","name":"Pro","description":"Everything"}}
    ]}"#;
    let (name, desc) = localization_choice(body).unwrap().unwrap();
    assert_eq!(name, "Pro");
    assert_eq!(desc.as_deref(), Some("Everything"));
    assert!(localization_choice(br#"{"data":[]}"#).unwrap().is_none());
    assert_eq!(localization_choice(b"bad"), Err(AdapterError::MalformedResponse));
}

#[test]
fn price_listing_extraction() {
    let body = br#"{"data":[{"relationships":{"subscriptionPricePoint":{"links":{"related":"https://example.com/pp/1"}}}}]}"#;
    assert_eq!(
        first_price_link(body).unwrap(),
        Some(Some("https://example.com/pp/1".to_string()))
    );
    assert_eq!(first_price_link(br#"{"data":[]}"#).unwrap(), None);
    assert_eq!(first_price_link(br#"{"data":[{}]}"#).unwrap(), Some(None));

    let pp = br#"{"data":{"attributes":{"customerPrice":"9.99"},
        "relationships":{"territory":{"links":{"related":"https://example.com/t/USA"}}}}}"#;
    let (price, link) = price_point(pp).unwrap();
    assert_eq!(price.as_deref(), Some("9.99"));
    assert_eq!(link.as_deref(), Some("https://example.com/t/USA"));

    let terr = br#"{"data":{"attributes":{"currency":"USD"}}}"#;
    assert_eq!(territory_currency(terr).unwrap().as_deref(), Some("USD"));
    assert_eq!(territory_currency(b"{}").unwrap(), None);
}

#[test]
fn period_and_offer_extraction() {
    let detail = br#"{"data":{"attributes":{"subscriptionPeriod":"SIX_MONTHS"}}}"#;
    assert_eq!(period_from_response(detail).unwrap(), "P6M");
    // a missing period counts as one month
    assert_eq!(period_from_response(b"{}").unwrap(), "P1M");

    let offers = br#"{"data":[{"attributes":{"duration":"THREE_DAYS"}}]}"#;
    assert_eq!(intro_offer_from_response(offers).unwrap().as_deref(), Some("P3D"));
    assert_eq!(intro_offer_from_response(br#"{"data":[]}"#).unwrap(), None);
    // an offer without a duration counts as one week
    let bare = br#"{"data":[{"attributes":{}}]}"#;
    assert_eq!(intro_offer_from_response(bare).unwrap().as_deref(), Some("P1W"));
}

#[test]
fn iap_listing_extraction() {
    let body = br#"{"data":[
        {"attributes":{"productId":"com.example.coins","name":"Coins","inAppPurchaseType":"CONSUMABLE"}},
        {"attributes":{"productId":"com.example.skin","name":"Skin","inAppPurchaseType":"NON_CONSUMABLE"}}
    ]}"#;
    let items = iap_items(body).unwrap();
    assert_eq!(items.len(), 2);
    assert_eq!(items[1].2.as_deref(), Some("NON_CONSUMABLE"));
    let p = iap_product(items[1].0.clone(), items[1].1.clone(), items[1].2.clone());
    assert_eq!(p.product_type, "non_consumable");
}
