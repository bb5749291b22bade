//! Catalog synchronisation: maps the vendor's subscription and purchase
//! listings to normalized product-sync records.
//!
//! The vendor's catalog endpoints are walked outside the library; every
//! response body is read here through trusted wrappers, and every mapping,
//! default and selection below them is verified. Prices arrive as decimal
//! strings and are converted exactly to micros, without floating point.

use crate::errors::AdapterError;
use crate::strutil::{or_empty, str_eq, unwrap_or_empty};
use vstd::arithmetic::power::pow;
use vstd::prelude::*;

verus! {

/// A normalized product-sync record, one per SKU.
#[derive(Clone, Debug)]
pub struct SyncedProduct {
    pub store_product_id: String,
    pub display_name: String,
    pub description: Option<String>,
    pub price_micros: i64,
    pub currency: String,
    pub subscription_period: Option<String>,
    pub trial_period: Option<String>,
    pub product_type: String,
}

/// The ISO-8601 duration a vendor subscription-period name maps to;
/// unrecognized names pass through verbatim.
pub open spec fn spec_period_iso(p: Seq<char>) -> Seq<char> {
    if p == "ONE_WEEK"@ {
        "P1W"@
    } else if p == "ONE_MONTH"@ {
        "P1M"@
    } else if p == "TWO_MONTHS"@ {
        "P2M"@
    } else if p == "THREE_MONTHS"@ {
        "P3M"@
    } else if p == "SIX_MONTHS"@ {
        "P6M"@
    } else if p == "ONE_YEAR"@ {
        "P1Y"@
    } else {
        p
    }
}

/// Maps a vendor subscription-period name to an ISO-8601 duration.
pub fn period_iso(p: &str) -> (r: String)
    ensures
        r@ == spec_period_iso(p@),
{
    if str_eq(p, "ONE_WEEK") {
        String::from_str("P1W")
    } else if str_eq(p, "ONE_MONTH") {
        String::from_str("P1M")
    } else if str_eq(p, "TWO_MONTHS") {
        String::from_str("P2M")
    } else if str_eq(p, "THREE_MONTHS") {
        String::from_str("P3M")
    } else if str_eq(p, "SIX_MONTHS") {
        String::from_str("P6M")
    } else if str_eq(p, "ONE_YEAR") {
        String::from_str("P1Y")
    } else {
        p.to_owned()
    }
}

/// The ISO-8601 duration a vendor trial-duration name maps to; trials add
/// the short durations to the subscription table; unrecognized names pass
/// through verbatim.
pub open spec fn spec_trial_iso(p: Seq<char>) -> Seq<char> {
    if p == "THREE_DAYS"@ {
        "P3D"@
    } else if p == "TWO_WEEKS"@ {
        "P2W"@
    } else {
        spec_period_iso(p)
    }
}

/// Maps a vendor trial-duration name to an ISO-8601 duration.
pub fn trial_iso(p: &str) -> (r: String)
    ensures
        r@ == spec_trial_iso(p@),
{
    if str_eq(p, "THREE_DAYS") {
        String::from_str("P3D")
    } else if str_eq(p, "TWO_WEEKS") {
        String::from_str("P2W")
    } else {
        period_iso(p)
    }
}

/// The normalized product type of a vendor in-app-purchase type; anything
/// unrecognized counts as consumable.
pub open spec fn spec_iap_type(t: Seq<char>) -> Seq<char> {
    if t == "NON_CONSUMABLE"@ {
        "non_consumable"@
    } else {
        "consumable"@
    }
}

/// Maps a vendor in-app-purchase type to the normalized product type.
pub fn iap_type(t: &str) -> (r: String)
    ensures
        r@ == spec_iap_type(t@),
{
    if str_eq(t, "NON_CONSUMABLE") {
        String::from_str("non_consumable")
    } else {
        String::from_str("consumable")
    }
}

/// An ASCII decimal digit.
pub open spec fn is_digit(b: u8) -> bool {
    48 <= b <= 57
}

/// Every byte is a digit.
pub open spec fn all_digits(s: Seq<u8>) -> bool {
    forall|i: int| 0 <= i < s.len() ==> is_digit(#[trigger] s[i])
}

/// The value of a digit string, most significant first.
pub open spec fn spec_digits_val(s: Seq<u8>) -> nat
    decreases s.len(),
{
    if s.len() == 0 {
        0
    } else {
        (spec_digits_val(s.drop_last()) * 10 + (s.last() - 48)) as nat
    }
}

/// The bytes before the first dot.
pub open spec fn spec_before_dot(s: Seq<u8>) -> Seq<u8>
    decreases s.len(),
{
    if s.len() == 0 {
        Seq::empty()
    } else if s[0] == 46u8 {
        Seq::empty()
    } else {
        seq![s[0]] + spec_before_dot(s.skip(1))
    }
}

/// The bytes after the first dot, if there is one.
pub open spec fn spec_after_dot(s: Seq<u8>) -> Option<Seq<u8>>
    decreases s.len(),
{
    if s.len() == 0 {
        None
    } else if s[0] == 46u8 {
        Some(s.skip(1))
    } else {
        spec_after_dot(s.skip(1))
    }
}

/// Micros contributed by a fraction digit string: the first six digits,
/// scaled as if padded to six places.
pub open spec fn spec_frac_micros(s: Seq<u8>) -> nat {
    if s.len() >= 6 {
        spec_digits_val(s.take(6))
    } else {
        (spec_digits_val(s) * pow(10, (6 - s.len()) as nat)) as nat
    }
}

/// A price string is a plain unsigned decimal: digits around at most one
/// dot, with at least one digit in all.
pub open spec fn is_plain_decimal(s: Seq<u8>) -> bool {
    &&& all_digits(spec_before_dot(s))
    &&& match spec_after_dot(s) {
        Some(f) => all_digits(f),
        None => true,
    }
    &&& spec_before_dot(s).len() + (match spec_after_dot(s) {
        Some(f) => f.len(),
        None => 0,
    }) >= 1
}

/// The exact micros a customer-price string stands for: its decimal value
/// times one million, truncated beyond six fraction digits, saturated at
/// `i64::MAX`; a string that is not a plain decimal counts zero.
pub open spec fn spec_price_micros(s: Seq<u8>) -> int {
    if is_plain_decimal(s) {
        let v = spec_digits_val(spec_before_dot(s)) * 1000000 + (match spec_after_dot(s) {
            Some(f) => spec_frac_micros(f),
            None => 0,
        });
        if v > i64::MAX {
            i64::MAX as int
        } else {
            v as int
        }
    } else {
        0
    }
}

/// Splitting at the first dot, stated over an explicit dot position.
proof fn lemma_split_at_dot(s: Seq<u8>, i: int)
    requires
        0 <= i < s.len(),
        s[i] == 46u8,
        forall|k: int| 0 <= k < i ==> s[k] != 46u8,
    ensures
        spec_before_dot(s) == s.take(i),
        spec_after_dot(s) == Some(s.skip(i + 1)),
    decreases i,
{
    if i == 0 {
        assert(spec_before_dot(s) =~= s.take(0));
    } else {
        lemma_split_at_dot(s.skip(1), i - 1);
        assert(spec_before_dot(s) =~= seq![s[0]] + s.skip(1).take(i - 1));
        assert(seq![s[0]] + s.skip(1).take(i - 1) =~= s.take(i));
        assert(s.skip(1).skip(i) =~= s.skip(i + 1));
    }
}

/// Without a dot there is no fraction part and the whole string stands
/// before the dot.
proof fn lemma_no_dot(s: Seq<u8>)
    requires
        forall|k: int| 0 <= k < s.len() ==> s[k] != 46u8,
    ensures
        spec_before_dot(s) == s,
        spec_after_dot(s) is None,
    decreases s.len(),
{
    if s.len() == 0 {
        assert(spec_before_dot(s) =~= s);
    } else {
        lemma_no_dot(s.skip(1));
        assert(spec_before_dot(s) =~= seq![s[0]] + s.skip(1));
        assert(seq![s[0]] + s.skip(1) =~= s);
    }
}

/// A string of at most `n` digits stays under ten to the `n`.
proof fn lemma_digits_val_bound(s: Seq<u8>)
    requires
        all_digits(s),
    ensures
        spec_digits_val(s) < pow(10, s.len()),
    decreases s.len(),
{
    vstd::arithmetic::power::lemma_pow_positive(10, s.len());
    if s.len() == 0 {
    } else {
        lemma_digits_val_bound(s.drop_last());
        vstd::arithmetic::power::lemma_pow1(10);
        vstd::arithmetic::power::lemma_pow_adds(10, (s.len() - 1) as nat, 1);
    }
}

/// The first seven powers of ten.
proof fn lemma_pow10_small()
    ensures
        pow(10, 0) == 1,
        pow(10, 1) == 10,
        pow(10, 2) == 100,
        pow(10, 3) == 1000,
        pow(10, 4) == 10000,
        pow(10, 5) == 100000,
        pow(10, 6) == 1000000,
{
    vstd::arithmetic::power::lemma_pow0(10);
    vstd::arithmetic::power::lemma_pow1(10);
    vstd::arithmetic::power::lemma_pow_adds(10, 1, 1);
    vstd::arithmetic::power::lemma_pow_adds(10, 2, 1);
    vstd::arithmetic::power::lemma_pow_adds(10, 3, 1);
    vstd::arithmetic::power::lemma_pow_adds(10, 4, 1);
    vstd::arithmetic::power::lemma_pow_adds(10, 5, 1);
}

/// Reads a digit string left to right, saturating at `u64::MAX`; exact
/// whenever the value fits.
fn digits_val_u64(s: &[u8], start: usize, end: usize) -> (r: u64)
    requires
        0 <= start <= end <= s@.len(),
        all_digits(s@.subrange(start as int, end as int)),
    ensures
        spec_digits_val(s@.subrange(start as int, end as int)) <= u64::MAX ==> r == spec_digits_val(
            s@.subrange(start as int, end as int),
        ),
        spec_digits_val(s@.subrange(start as int, end as int)) > u64::MAX ==> r == u64::MAX,
        r <= spec_digits_val(s@.subrange(start as int, end as int)),
{
    let mut acc: u64 = 0;
    let mut i: usize = start;
    while i < end
        invariant
            start <= i <= end <= s@.len(),
            all_digits(s@.subrange(start as int, end as int)),
            spec_digits_val(s@.subrange(start as int, i as int)) <= u64::MAX ==> acc
                == spec_digits_val(s@.subrange(start as int, i as int)),
            spec_digits_val(s@.subrange(start as int, i as int)) > u64::MAX ==> acc == u64::MAX,
            acc <= spec_digits_val(s@.subrange(start as int, i as int)),
        decreases end - i,
    {
        let ghost prefix = s@.subrange(start as int, i as int);
        let ghost full = s@.subrange(start as int, end as int);
        assert(s@[i as int] == full[i - start]);
        assert(is_digit(s@[i as int]));
        let d = s[i] - 48;
        let ghost next = s@.subrange(start as int, i + 1);
        proof {
            assert(next.drop_last() =~= prefix);
            assert(next.last() == s@[i as int]);
        }
        if acc <= (u64::MAX - d as u64) / 10 {
            acc = acc * 10 + d as u64;
        } else {
            proof {
                assert(acc * 10 + d > u64::MAX);
            }
            acc = u64::MAX;
        }
        i = i + 1;
    }
    acc
}

/// Converts a vendor customer-price string to micros, exactly; a string
/// that is not a plain decimal yields zero.
pub fn price_micros(s: &str) -> (r: i64)
    ensures
        r == spec_price_micros(vstd::utf8::encode_utf8(s@)),
{
    let bytes = s.as_bytes();
    let n = bytes.len();
    let mut dot: usize = n;
    let mut valid = true;
    let mut i: usize = 0;
    while i < n
        invariant
            0 <= i <= n,
            n == bytes@.len(),
            dot == n || (dot < i && bytes@[dot as int] == 46u8),
            dot == n ==> forall|k: int| 0 <= k < i ==> bytes@[k] != 46u8,
            dot < n ==> forall|k: int| 0 <= k < dot ==> bytes@[k] != 46u8,
            valid == (forall|k: int| 0 <= k < i && k != dot ==> is_digit(#[trigger] bytes@[k])),
        decreases n - i,
    {
        let b = bytes[i];
        if b == 46 {
            if dot == n {
                dot = i;
            } else {
                valid = false;
                assert(!is_digit(46u8));
            }
        } else if !(48 <= b && b <= 57) {
            valid = false;
        }
        i = i + 1;
    }
    proof {
        if dot < n {
            lemma_split_at_dot(bytes@, dot as int);
        } else {
            lemma_no_dot(bytes@);
        }
    }
    if !valid || n == 0 || (dot < n && n == 1) {
        proof {
            if !valid {
                let k = choose|k: int|
                    0 <= k < n && k != dot as int && !is_digit(bytes@[k]);
                if (dot as int) < n {
                    if k < dot as int {
                        assert(spec_before_dot(bytes@)[k] == bytes@[k]);
                    } else {
                        assert(spec_after_dot(bytes@)->0[k - dot - 1] == bytes@[k]);
                    }
                } else {
                    assert(spec_before_dot(bytes@)[k] == bytes@[k]);
                }
            }
            assert(!is_plain_decimal(bytes@));
        }
        return 0;
    }
    assert(is_plain_decimal(bytes@));
    let int_end = if dot < n {
        dot
    } else {
        n
    };
    let int_val = digits_val_u64(bytes, 0, int_end);
    assert(bytes@.subrange(0, int_end as int) =~= spec_before_dot(bytes@));
    proof {
        lemma_pow10_small();
    }
    let frac_val: u64 = if dot < n {
        let frac_len = n - dot - 1;
        if frac_len >= 6 {
            let v = digits_val_u64(bytes, dot + 1, dot + 7);
            proof {
                assert(bytes@.subrange(dot + 1, dot + 7) =~= bytes@.skip(dot + 1).take(6));
                lemma_digits_val_bound(bytes@.skip(dot + 1).take(6));
            }
            v
        } else {
            let v = digits_val_u64(bytes, dot + 1, n);
            proof {
                assert(bytes@.subrange(dot + 1, n as int) =~= bytes@.skip(dot + 1));
                lemma_digits_val_bound(bytes@.skip(dot + 1));
            }
            let scale: u64 = if frac_len == 0 {
                1000000
            } else if frac_len == 1 {
                100000
            } else if frac_len == 2 {
                10000
            } else if frac_len == 3 {
                1000
            } else if frac_len == 4 {
                100
            } else {
                10
            };
            assert(scale == pow(10, (6 - frac_len) as nat));
            v * scale
        }
    } else {
        0
    };
    assert(frac_val < 1000000 && frac_val == (match spec_after_dot(
        vstd::utf8::encode_utf8(s@),
    ) {
        Some(f) => spec_frac_micros(f),
        None => 0nat,
    }));
    if int_val <= 9_223_372_036_853u64 {
        (int_val * 1_000_000 + frac_val) as i64
    } else if int_val == 9_223_372_036_854u64 && frac_val <= 775_807 {
        (int_val * 1_000_000 + frac_val) as i64
    } else {
        proof {
            let sv = spec_digits_val(spec_before_dot(bytes@));
            if int_val == 9_223_372_036_854u64 {
                assert(sv == 9_223_372_036_854);
                assert(frac_val >= 775_808);
            } else if int_val < u64::MAX {
                assert(sv == int_val && sv >= 9_223_372_036_855);
            } else {
                assert(sv >= u64::MAX);
            }
            assert(sv * 1000000 + frac_val > i64::MAX);
        }
        i64::MAX
    }
}

/// The `id` of each element of a listing's `data` array; an element without
/// one yields `None`. A body whose `data` is missing or not an array lists
/// nothing; a body that is not valid JSON is `None` overall.
pub uninterp spec fn data_ids_of(body: Seq<u8>) -> Option<Seq<Option<Seq<char>>>>;

/// Relies on serde_json::from_slice, Value::as_array and Value::as_str:
/// reads the `id` of each `data` element.
#[verifier::external_body]
fn parse_data_ids(body: &[u8]) -> (r: Option<Vec<Option<String>>>)
    ensures
        r.deep_view() == data_ids_of(body@),
{
    let v: serde_json::Value = serde_json::from_slice(body).ok()?;
    let empty = vec![];
    let items = v["data"].as_array().unwrap_or(&empty);
    Some(items.iter().map(|it| it["id"].as_str().map(|s| s.to_string())).collect())
}

/// The `id`, `attributes.productId` and `attributes.name` of each element of
/// a subscription listing's `data` array.
pub uninterp spec fn subscription_items_of(body: Seq<u8>) -> Option<
    Seq<(Option<Seq<char>>, Option<Seq<char>>, Option<Seq<char>>)>,
>;

/// Relies on serde_json::from_slice, Value::as_array and Value::as_str:
/// reads id, product id and name of each `data` element.
#[verifier::external_body]
fn parse_subscription_items(body: &[u8]) -> (r: Option<
    Vec<(Option<String>, Option<String>, Option<String>)>,
>)
    ensures
        r.deep_view() == subscription_items_of(body@),
{
    let v: serde_json::Value = serde_json::from_slice(body).ok()?;
    let empty = vec![];
    let items = v["data"].as_array().unwrap_or(&empty);
    Some(
        items.iter().map(
            |it| (
                it["id"].as_str().map(|s| s.to_string()),
                it["attributes"]["productId"].as_str().map(|s| s.to_string()),
                it["attributes"]["name"].as_str().map(|s| s.to_string()),
            ),
        ).collect(),
    )
}

/// The `attributes.locale`, `attributes.name` and `attributes.description`
/// of each element of a localization listing's `data` array.
pub uninterp spec fn localization_items_of(body: Seq<u8>) -> Option<
    Seq<(Option<Seq<char>>, Option<Seq<char>>, Option<Seq<char>>)>,
>;

/// Relies on serde_json::from_slice, Value::as_array and Value::as_str:
/// reads locale, name and description of each `data` element.
#[verifier::external_body]
fn parse_localization_items(body: &[u8]) -> (r: Option<
    Vec<(Option<String>, Option<String>, Option<String>)>,
>)
    ensures
        r.deep_view() == localization_items_of(body@),
{
    let v: serde_json::Value = serde_json::from_slice(body).ok()?;
    let empty = vec![];
    let items = v["data"].as_array().unwrap_or(&empty);
    Some(
        items.iter().map(
            |it| (
                it["attributes"]["locale"].as_str().map(|s| s.to_string()),
                it["attributes"]["name"].as_str().map(|s| s.to_string()),
                it["attributes"]["description"].as_str().map(|s| s.to_string()),
            ),
        ).collect(),
    )
}

/// The price-point link of the first element of a price listing's `data`
/// array: `None` for a body that is not valid JSON, then whether a first
/// element exists, then whether it carries the link.
pub uninterp spec fn first_price_link_of(body: Seq<u8>) -> Option<Option<Option<Seq<char>>>>;

/// Relies on serde_json::from_slice, Value::as_array and Value::as_str:
/// reads `relationships.subscriptionPricePoint.links.related` of the first
/// `data` element.
#[verifier::external_body]
fn parse_first_price_link(body: &[u8]) -> (r: Option<Option<Option<String>>>)
    ensures
        r.deep_view() == first_price_link_of(body@),
{
    let v: serde_json::Value = serde_json::from_slice(body).ok()?;
    let empty = vec![];
    let items = v["data"].as_array().unwrap_or(&empty);
    Some(items.first().map(
        |p| p["relationships"]["subscriptionPricePoint"]["links"]["related"].as_str().map(
            |s| s.to_string(),
        ),
    ))
}

/// The `data.attributes.customerPrice` string and the territory link of a
/// price-point response.
pub uninterp spec fn price_point_of(body: Seq<u8>) -> Option<
    (Option<Seq<char>>, Option<Seq<char>>),
>;

/// Relies on serde_json::from_slice and Value::as_str: reads the customer
/// price and `data.relationships.territory.links.related`.
#[verifier::external_body]
fn parse_price_point(body: &[u8]) -> (r: Option<(Option<String>, Option<String>)>)
    ensures
        r.deep_view() == price_point_of(body@),
{
    let v: serde_json::Value = serde_json::from_slice(body).ok()?;
    Some((
        v["data"]["attributes"]["customerPrice"].as_str().map(|s| s.to_string()),
        v["data"]["relationships"]["territory"]["links"]["related"].as_str().map(
            |s| s.to_string(),
        ),
    ))
}

/// The `data.attributes.currency` string of a territory response.
pub uninterp spec fn territory_currency_of(body: Seq<u8>) -> Option<Option<Seq<char>>>;

/// Relies on serde_json::from_slice and Value::as_str: reads the currency.
#[verifier::external_body]
fn parse_territory_currency(body: &[u8]) -> (r: Option<Option<String>>)
    ensures
        r.deep_view() == territory_currency_of(body@),
{
    let v: serde_json::Value = serde_json::from_slice(body).ok()?;
    Some(v["data"]["attributes"]["currency"].as_str().map(|s| s.to_string()))
}

/// The `data.attributes.subscriptionPeriod` string of a subscription-detail
/// response.
pub uninterp spec fn subscription_period_of(body: Seq<u8>) -> Option<Option<Seq<char>>>;

/// Relies on serde_json::from_slice and Value::as_str: reads the
/// subscription period.
#[verifier::external_body]
fn parse_subscription_period(body: &[u8]) -> (r: Option<Option<String>>)
    ensures
        r.deep_view() == subscription_period_of(body@),
{
    let v: serde_json::Value = serde_json::from_slice(body).ok()?;
    Some(v["data"]["attributes"]["subscriptionPeriod"].as_str().map(|s| s.to_string()))
}

/// The `attributes.duration` of each element of an introductory-offer
/// listing's `data` array.
pub uninterp spec fn offer_duration_items_of(body: Seq<u8>) -> Option<Seq<Option<Seq<char>>>>;

/// Relies on serde_json::from_slice, Value::as_array and Value::as_str:
/// reads the duration of each `data` element.
#[verifier::external_body]
fn parse_offer_durations(body: &[u8]) -> (r: Option<Vec<Option<String>>>)
    ensures
        r.deep_view() == offer_duration_items_of(body@),
{
    let v: serde_json::Value = serde_json::from_slice(body).ok()?;
    let empty = vec![];
    let items = v["data"].as_array().unwrap_or(&empty);
    Some(items.iter().map(|it| it["attributes"]["duration"].as_str().map(|s| s.to_string())).collect())
}

/// The `attributes.productId`, `attributes.name` and
/// `attributes.inAppPurchaseType` of each element of an in-app-purchase
/// listing's `data` array.
pub uninterp spec fn iap_items_of(body: Seq<u8>) -> Option<
    Seq<(Option<Seq<char>>, Option<Seq<char>>, Option<Seq<char>>)>,
>;

/// Relies on serde_json::from_slice, Value::as_array and Value::as_str:
/// reads product id, name and purchase type of each `data` element.
#[verifier::external_body]
fn parse_iap_items(body: &[u8]) -> (r: Option<
    Vec<(Option<String>, Option<String>, Option<String>)>,
>)
    ensures
        r.deep_view() == iap_items_of(body@),
{
    let v: serde_json::Value = serde_json::from_slice(body).ok()?;
    let empty = vec![];
    let items = v["data"].as_array().unwrap_or(&empty);
    Some(
        items.iter().map(
            |it| (
                it["attributes"]["productId"].as_str().map(|s| s.to_string()),
                it["attributes"]["name"].as_str().map(|s| s.to_string()),
                it["attributes"]["inAppPurchaseType"].as_str().map(|s| s.to_string()),
            ),
        ).collect(),
    )
}

/// Reads a listing of data-element ids: `MalformedResponse` when the body is
/// not valid JSON, otherwise the ids with missing ones defaulted to empty.
pub fn data_ids(body: &[u8]) -> (r: Result<Vec<String>, AdapterError>)
    ensures
        match data_ids_of(body@) {
            None => r matches Err(e) && e == AdapterError::MalformedResponse,
            Some(ids) => r matches Ok(v) && v@.len() == ids.len() && forall|i: int|
                0 <= i < ids.len() ==> v@[i]@ == or_empty(ids[i]),
        },
{
    match parse_data_ids(body) {
        None => Err(AdapterError::MalformedResponse),
        Some(ids) => {
            let ghost spec_ids = data_ids_of(body@)->0;
            let mut out: Vec<String> = Vec::new();
            let n = ids.len();
            let mut i: usize = 0;
            while i < n
                invariant
                    0 <= i <= n,
                    n == ids@.len(),
                    ids.deep_view() == spec_ids,
                    out@.len() == i,
                    forall|k: int| 0 <= k < i ==> out@[k]@ == or_empty(spec_ids[k]),
                decreases n - i,
            {
                let id = match &ids[i] {
                    Some(s) => s.clone(),
                    None => String::new(),
                };
                out.push(id);
                i = i + 1;
            }
            Ok(out)
        },
    }
}

/// What the first en-US localization, else the first localization, yields:
/// the display name (empty when missing) and the description.
pub open spec fn spec_first_en_us(
    locs: Seq<(Option<Seq<char>>, Option<Seq<char>>, Option<Seq<char>>)>,
) -> Option<(Seq<char>, Option<Seq<char>>)>
    decreases locs.len(),
{
    if locs.len() == 0 {
        None
    } else if locs[0].0 == Some("en-US"@) {
        Some((or_empty(locs[0].1), locs[0].2))
    } else {
        spec_first_en_us(locs.skip(1))
    }
}

/// The localization a subscription shows: the en-US one when present, else
/// the first, else nothing.
pub open spec fn spec_select_localization(
    locs: Seq<(Option<Seq<char>>, Option<Seq<char>>, Option<Seq<char>>)>,
) -> Option<(Seq<char>, Option<Seq<char>>)> {
    match spec_first_en_us(locs) {
        Some(l) => Some(l),
        None => if locs.len() > 0 {
            Some((or_empty(locs[0].1), locs[0].2))
        } else {
            None
        },
    }
}

/// Scanning past entries that are not en-US keeps the search result.
proof fn lemma_first_en_us_skip(
    locs: Seq<(Option<Seq<char>>, Option<Seq<char>>, Option<Seq<char>>)>,
    i: int,
)
    requires
        0 <= i <= locs.len(),
        forall|k: int| 0 <= k < i ==> locs[k].0 != Some("en-US"@),
    ensures
        spec_first_en_us(locs) == spec_first_en_us(locs.skip(i)),
    decreases i,
{
    if i == 0 {
        assert(locs.skip(0) =~= locs);
    } else {
        assert(locs[0].0 != Some("en-US"@));
        assert forall|k: int| 0 <= k < i - 1 implies locs.skip(1)[k].0 != Some("en-US"@) by {
            assert(locs.skip(1)[k] == locs[k + 1]);
        }
        lemma_first_en_us_skip(locs.skip(1), i - 1);
        assert(locs.skip(1).skip(i - 1) =~= locs.skip(i));
        assert(spec_first_en_us(locs) == spec_first_en_us(locs.skip(1)));
    }
}

/// Picks the localization to show: first en-US, else the first one.
pub fn select_localization(locs: &Vec<(Option<String>, Option<String>, Option<String>)>) -> (r:
    Option<(String, Option<String>)>)
    ensures
        match spec_select_localization(locs.deep_view()) {
            None => r is None,
            Some((name, desc)) => r matches Some((n, d)) && n@ == name && d.deep_view() == desc,
        },
{
    let ghost sl = locs.deep_view();
    let n = locs.len();
    let mut i: usize = 0;
    while i < n
        invariant
            0 <= i <= n,
            n == locs@.len(),
            sl == locs.deep_view(),
            sl.len() == n,
            forall|k: int|
                0 <= k < n ==> #[trigger] sl[k] == (
                locs@[k].0.deep_view(),
                locs@[k].1.deep_view(),
                locs@[k].2.deep_view(),
                ),
            forall|k: int| 0 <= k < i ==> sl[k].0 != Some("en-US"@),
        decreases n - i,
    {
        let is_en = match &locs[i].0 {
            Some(l) => str_eq(l.as_str(), "en-US"),
            None => false,
        };
        if is_en {
            proof {
                lemma_first_en_us_skip(sl, i as int);
            }
            let name = match &locs[i].1 {
                Some(s) => s.clone(),
                None => String::new(),
            };
            let desc = match &locs[i].2 {
                Some(s) => Some(s.clone()),
                None => None,
            };
            return Some((name, desc));
        }
        i = i + 1;
    }
    proof {
        lemma_first_en_us_skip(sl, n as int);
        assert(sl.skip(n as int) =~= Seq::empty());
    }
    if n > 0 {
        let name = match &locs[0].1 {
            Some(s) => s.clone(),
            None => String::new(),
        };
        let desc = match &locs[0].2 {
            Some(s) => Some(s.clone()),
            None => None,
        };
        Some((name, desc))
    } else {
        None
    }
}

/// Price and currency with catalog defaults: a missing price counts zero, a
/// missing currency is USD.
pub fn price_from_parts(customer_price: Option<String>, currency: Option<String>) -> (r: (
    i64,
    String,
))
    ensures
        r.0 == (match customer_price {
            Some(p) => spec_price_micros(vstd::utf8::encode_utf8(p@)),
            None => spec_price_micros(vstd::utf8::encode_utf8("0"@)),
        }),
        r.1@ == (match currency {
            Some(c) => c@,
            None => "USD"@,
        }),
{
    let micros = match &customer_price {
        Some(p) => price_micros(p.as_str()),
        None => price_micros("0"),
    };
    let cur = match currency {
        Some(c) => c,
        None => String::from_str("USD"),
    };
    (micros, cur)
}

/// Assembles one subscription's sync record, degrading gracefully: missing
/// localization falls back to the catalog name (itself falling back to the
/// product id), missing price to zero USD, missing period and trial to none.
pub fn subscription_product(
    product_id: Option<String>,
    name: Option<String>,
    localization: Option<(String, Option<String>)>,
    price: Option<(i64, String)>,
    period: Option<String>,
    trial: Option<String>,
) -> (p: SyncedProduct)
    ensures
        p.store_product_id@ == or_empty(product_id.deep_view()),
        p.display_name@ == (match localization {
            Some((ref n, _)) => n@,
            None => match name {
                Some(ref nm) => nm@,
                None => or_empty(product_id.deep_view()),
            },
        }),
        p.description.deep_view() == (match localization {
            Some((_, ref d)) => d.deep_view(),
            None => None::<Seq<char>>,
        }),
        p.price_micros == (match price {
            Some((m, _)) => m,
            None => 0,
        }),
        p.currency@ == (match price {
            Some((_, ref c)) => c@,
            None => "USD"@,
        }),
        p.subscription_period.deep_view() == period.deep_view(),
        p.trial_period.deep_view() == trial.deep_view(),
        p.product_type@ == "subscription"@,
{
    let pid = unwrap_or_empty(product_id);
    let fallback_name = match name {
        Some(nm) => nm,
        None => pid.clone(),
    };
    let (display_name, description) = match localization {
        Some((n, d)) => (n, d),
        None => (fallback_name, None),
    };
    let (price_micros, currency) = match price {
        Some((m, c)) => (m, c),
        None => (0, String::from_str("USD")),
    };
    SyncedProduct {
        store_product_id: pid,
        display_name,
        description,
        price_micros,
        currency,
        subscription_period: period,
        trial_period: trial,
        product_type: String::from_str("subscription"),
    }
}

/// Assembles one in-app purchase's sync record: flat listing, no price or
/// period data, the purchase type normalized.
pub fn iap_product(product_id: Option<String>, name: Option<String>, purchase_type: Option<
    String,
>) -> (p: SyncedProduct)
    ensures
        p.store_product_id@ == or_empty(product_id.deep_view()),
        p.display_name@ == (match name {
            Some(ref nm) => nm@,
            None => or_empty(product_id.deep_view()),
        }),
        p.description is None,
        p.price_micros == 0,
        p.currency@ == "USD"@,
        p.subscription_period is None,
        p.trial_period is None,
        p.product_type@ == (match purchase_type {
            Some(ref t) => spec_iap_type(t@),
            None => "consumable"@,
        }),
{
    let pid = unwrap_or_empty(product_id);
    let display_name = match name {
        Some(nm) => nm,
        None => pid.clone(),
    };
    let product_type = match purchase_type {
        Some(t) => iap_type(t.as_str()),
        None => String::from_str("consumable"),
    };
    SyncedProduct {
        store_product_id: pid,
        display_name,
        description: None,
        price_micros: 0,
        currency: String::from_str("USD"),
        subscription_period: None,
        trial_period: None,
        product_type,
    }
}

/// Reads a subscription listing: for each entry its id, product id and
/// catalog name, as the vendor sent them.
pub fn subscription_items(body: &[u8]) -> (r: Result<
    Vec<(Option<String>, Option<String>, Option<String>)>,
    AdapterError,
>)
    ensures
        match subscription_items_of(body@) {
            None => r matches Err(e) && e == AdapterError::MalformedResponse,
            Some(items) => r matches Ok(v) && v.deep_view() == items,
        },
{
    match parse_subscription_items(body) {
        None => Err(AdapterError::MalformedResponse),
        Some(items) => Ok(items),
    }
}

/// Reads a localization listing and picks the entry to show: the en-US one
/// when present, else the first; `None` when the listing is empty.
pub fn localization_choice(body: &[u8]) -> (r: Result<
    Option<(String, Option<String>)>,
    AdapterError,
>)
    ensures
        match localization_items_of(body@) {
            None => r matches Err(e) && e == AdapterError::MalformedResponse,
            Some(items) => match spec_select_localization(items) {
                None => r matches Ok(c) && c is None,
                Some((name, desc)) => r matches Ok(c) && c matches Some((n, d)) && n@ == name
                    && d.deep_view() == desc,
            },
        },
{
    match parse_localization_items(body) {
        None => Err(AdapterError::MalformedResponse),
        Some(items) => Ok(select_localization(&items)),
    }
}

/// Reads a price listing to the link of its first entry's price point:
/// `None` when the listing has no entries, the inner option the link's
/// presence on that entry.
pub fn first_price_link(body: &[u8]) -> (r: Result<Option<Option<String>>, AdapterError>)
    ensures
        match first_price_link_of(body@) {
            None => r matches Err(e) && e == AdapterError::MalformedResponse,
            Some(link) => r matches Ok(v) && v.deep_view() == link,
        },
{
    match parse_first_price_link(body) {
        None => Err(AdapterError::MalformedResponse),
        Some(link) => Ok(link),
    }
}

/// Reads a price-point response to its customer-price string and territory
/// link.
pub fn price_point(body: &[u8]) -> (r: Result<(Option<String>, Option<String>), AdapterError>)
    ensures
        match price_point_of(body@) {
            None => r matches Err(e) && e == AdapterError::MalformedResponse,
            Some(pp) => r matches Ok(v) && v.deep_view() == pp,
        },
{
    match parse_price_point(body) {
        None => Err(AdapterError::MalformedResponse),
        Some(pp) => Ok(pp),
    }
}

/// Reads a territory response to its currency, if it names one.
pub fn territory_currency(body: &[u8]) -> (r: Result<Option<String>, AdapterError>)
    ensures
        match territory_currency_of(body@) {
            None => r matches Err(e) && e == AdapterError::MalformedResponse,
            Some(c) => r matches Ok(v) && v.deep_view() == c,
        },
{
    match parse_territory_currency(body) {
        None => Err(AdapterError::MalformedResponse),
        Some(c) => Ok(c),
    }
}

/// Reads a subscription-detail response to the ISO-8601 form of its period,
/// a missing period counting as one month.
pub fn period_from_response(body: &[u8]) -> (r: Result<String, AdapterError>)
    ensures
        match subscription_period_of(body@) {
            None => r matches Err(e) && e == AdapterError::MalformedResponse,
            Some(p) => r matches Ok(v) && v@ == spec_period_iso(
                match p {
                    Some(name) => name,
                    None => "ONE_MONTH"@,
                },
            ),
        },
{
    match parse_subscription_period(body) {
        None => Err(AdapterError::MalformedResponse),
        Some(Some(p)) => Ok(period_iso(p.as_str())),
        Some(None) => Ok(period_iso("ONE_MONTH")),
    }
}

/// Reads an introductory-offer listing to the ISO-8601 trial duration of its
/// first offer, a missing duration counting as one week; `None` when there
/// is no offer.
pub fn intro_offer_from_response(body: &[u8]) -> (r: Result<Option<String>, AdapterError>)
    ensures
        match offer_duration_items_of(body@) {
            None => r matches Err(e) && e == AdapterError::MalformedResponse,
            Some(items) => if items.len() == 0 {
                r matches Ok(v) && v is None
            } else {
                r matches Ok(v) && v matches Some(t) && t@ == spec_trial_iso(
                    match items[0] {
                        Some(name) => name,
                        None => "P1W"@,
                    },
                )
            },
        },
{
    match parse_offer_durations(body) {
        None => Err(AdapterError::MalformedResponse),
        Some(items) => {
            if items.len() == 0 {
                Ok(None)
            } else {
                match &items[0] {
                    Some(d) => Ok(Some(trial_iso(d.as_str()))),
                    None => Ok(Some(trial_iso("P1W"))),
                }
            }
        },
    }
}

/// Reads an in-app-purchase listing: for each entry its product id, name and
/// vendor purchase type.
pub fn iap_items(body: &[u8]) -> (r: Result<
    Vec<(Option<String>, Option<String>, Option<String>)>,
    AdapterError,
>)
    ensures
        match iap_items_of(body@) {
            None => r matches Err(e) && e == AdapterError::MalformedResponse,
            Some(items) => r matches Ok(v) && v.deep_view() == items,
        },
{
    match parse_iap_items(body) {
        None => Err(AdapterError::MalformedResponse),
        Some(items) => Ok(items),
    }
}

} // verus!
