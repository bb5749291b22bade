//! Notification reconciler and receipt intake: turns adapter events and
//! submitted receipts into the records and delivery rows to persist, and
//! answers subscriber lookups.
//!
//! Identifiers and timestamps are handed in by the caller, so every decision
//! here is a function of its arguments.

use crate::models::{CreateProduct, CreateWebhook, Entitlement, OfferingProduct, Product};
use crate::models::{Event, Subscriber, SubmitReceipt, Transaction, WebhookEndpoint};
use crate::strutil::str_eq;
use vstd::prelude::*;

verus! {

/// The records a submitted receipt creates: the subscriber row it belongs to
/// (reused when one exists, otherwise created), and a transaction recorded
/// as `active` pending verification against the store.
pub fn plan_receipt_submission(
    input: &SubmitReceipt,
    existing: Option<Subscriber>,
    new_subscriber_id: String,
    tx_id: String,
    now: String,
) -> (r: (Subscriber, Transaction))
    ensures
        match existing {
            Some(s) => r.0 == s,
            None => r.0.id == new_subscriber_id && r.0.app_id@ == input.app_id@
                && r.0.app_user_id@ == input.app_user_id@ && r.0.created_at@ == now@,
        },
        r.1.id == tx_id,
        r.1.subscriber_id@ == r.0.id@,
        r.1.product_id@ == input.product_id@,
        r.1.store@ == input.store@,
        r.1.store_transaction_id@ == "pending_verification_"@ + tx_id@,
        r.1.purchase_date@ == now@,
        r.1.expiration_date is None,
        r.1.status@ == "active"@,
        r.1.raw_receipt matches Some(raw) && raw@ == input.receipt_data@,
        r.1.created_at@ == now@,
        r.1.updated_at@ == now@,
{
    let subscriber = match existing {
        Some(s) => s,
        None => Subscriber {
            id: new_subscriber_id,
            app_id: input.app_id.clone(),
            app_user_id: input.app_user_id.clone(),
            created_at: now.clone(),
        },
    };
    let mut store_transaction_id = String::from_str("pending_verification_");
    store_transaction_id.append(tx_id.as_str());
    let transaction = Transaction {
        id: tx_id,
        subscriber_id: subscriber.id.clone(),
        product_id: input.product_id.clone(),
        store: input.store.clone(),
        store_transaction_id,
        purchase_date: now.clone(),
        expiration_date: None,
        status: String::from_str("active"),
        raw_receipt: Some(input.receipt_data.clone()),
        created_at: now.clone(),
        updated_at: now,
    };
    (subscriber, transaction)
}

/// The event row one normalized event becomes, under the subscriber it was
/// resolved to.
pub fn make_event_record(
    id: String,
    subscriber_id: String,
    event_type: String,
    payload: String,
    now: String,
) -> (e: Event)
    ensures
        e.id == id,
        e.subscriber_id == subscriber_id,
        e.event_type == event_type,
        e.payload == payload,
        e.created_at == now,
{
    Event { id, subscriber_id, event_type, payload, created_at: now }
}

/// The endpoints that deliveries go to: the active ones, in registration
/// list order.
pub open spec fn spec_active(endpoints: Seq<WebhookEndpoint>) -> Seq<WebhookEndpoint> {
    endpoints.filter(|e: WebhookEndpoint| e.active == 1)
}

/// One delivery per (event, active endpoint) pair, events outermost.
pub open spec fn spec_delivery_pairs(event_ids: Seq<String>, eps: Seq<WebhookEndpoint>) -> Seq<
    (String, String),
>
    decreases event_ids.len(),
{
    if event_ids.len() == 0 {
        Seq::empty()
    } else {
        eps.map_values(|e: WebhookEndpoint| (event_ids[0], e.id)) + spec_delivery_pairs(
            event_ids.skip(1),
            eps,
        )
    }
}

/// Delivery pairs distribute over splitting the event list.
proof fn lemma_pairs_append(a: Seq<String>, b: Seq<String>, eps: Seq<WebhookEndpoint>)
    ensures
        spec_delivery_pairs(a + b, eps) == spec_delivery_pairs(a, eps) + spec_delivery_pairs(
            b,
            eps,
        ),
    decreases a.len(),
{
    if a.len() == 0 {
        assert(a + b =~= b);
        assert(spec_delivery_pairs(a, eps) + spec_delivery_pairs(b, eps) =~= spec_delivery_pairs(
            b,
            eps,
        ));
    } else {
        lemma_pairs_append(a.skip(1), b, eps);
        assert((a + b).skip(1) =~= a.skip(1) + b);
        assert(spec_delivery_pairs(a + b, eps) =~= spec_delivery_pairs(a, eps)
            + spec_delivery_pairs(b, eps));
    }
}

/// The (event id, endpoint id) pairs to enqueue one delivery row for: every
/// persisted event crossed with every active endpoint. With no active
/// endpoint, or no event, nothing is enqueued.
pub fn plan_deliveries(event_ids: &Vec<String>, endpoints: &Vec<WebhookEndpoint>) -> (pairs: Vec<
    (String, String),
>)
    ensures
        pairs@ == spec_delivery_pairs(event_ids@, spec_active(endpoints@)),
{
    let ghost eps = spec_active(endpoints@);
    let mut pairs: Vec<(String, String)> = Vec::new();
    let ne = event_ids.len();
    let nn = endpoints.len();
    let mut i: usize = 0;
    while i < ne
        invariant
            0 <= i <= ne,
            ne == event_ids@.len(),
            nn == endpoints@.len(),
            eps == spec_active(endpoints@),
            pairs@ == spec_delivery_pairs(event_ids@.take(i as int), eps),
        decreases ne - i,
    {
        let ghost done = event_ids@.take(i as int);
        let event_id = &event_ids[i];
        let mut j: usize = 0;
        let mut row: Vec<(String, String)> = Vec::new();
        while j < nn
            invariant
                0 <= j <= nn,
                nn == endpoints@.len(),
                ne == event_ids@.len(),
                i < ne,
                event_id == event_ids@[i as int],
                row@ == endpoints@.take(j as int).filter(|e: WebhookEndpoint| e.active == 1)
                    .map_values(
                    |e: WebhookEndpoint| (event_ids@[i as int], e.id),
                ),
            decreases nn - j,
        {
            let ghost prefix = endpoints@.take(j as int);
            let ghost next = endpoints@.take(j + 1);
            proof {
                reveal(Seq::filter);
                assert(next.drop_last() =~= prefix);
                assert(next.last() == endpoints@[j as int]);
            }
            if endpoints[j].active == 1 {
                row.push((event_id.clone(), endpoints[j].id.clone()));
            }
            proof {
                reveal(Seq::filter);
                let pred = |e: WebhookEndpoint| e.active == 1;
                let f = |e: WebhookEndpoint| (event_ids@[i as int], e.id);
                if pred(endpoints@[j as int]) {
                    assert(next.filter(pred) == prefix.filter(pred).push(endpoints@[j as int]));
                    assert(row@ =~= next.filter(pred).map_values(f));
                } else {
                    assert(next.filter(pred) == prefix.filter(pred));
                    assert(row@ =~= next.filter(pred).map_values(f));
                }
            }
            j = j + 1;
        }
        proof {
            assert(endpoints@.take(nn as int) =~= endpoints@);
            assert(row@ == eps.map_values(
                |e: WebhookEndpoint| (event_ids@[i as int], e.id),
            ));
        }
        let ghost row_view = row@;
        let mut row_mut = row;
        pairs.append(&mut row_mut);
        proof {
            let one = seq![event_ids@[i as int]];
            lemma_pairs_append(done, one, eps);
            assert(event_ids@.take(i + 1) =~= done + one);
            assert(one.skip(1) =~= Seq::<String>::empty());
            assert(spec_delivery_pairs(one.skip(1), eps) == Seq::<(String, String)>::empty());
            assert(spec_delivery_pairs(one, eps) =~= eps.map_values(
                |e: WebhookEndpoint| (one[0], e.id),
            ));
            assert(eps.map_values(|e: WebhookEndpoint| (one[0], e.id)) =~= row_view);
            assert(pairs@ =~= spec_delivery_pairs(event_ids@.take(i + 1), eps));
        }
        i = i + 1;
    }
    proof {
        assert(event_ids@.take(ne as int) =~= event_ids@);
    }
    pairs
}

/// The subscriber owns the entitlement: some link ties it to a product the
/// subscriber holds an active transaction for.
pub open spec fn spec_entitled(
    transactions: Seq<Transaction>,
    links: Seq<(String, String)>,
    e: Entitlement,
) -> bool {
    exists|li: int, ti: int|
        0 <= li < links.len() && 0 <= ti < transactions.len()
            && #[trigger] links[li].0@ == #[trigger] transactions[ti].product_id@
            && transactions[ti].status@ == "active"@ && links[li].1@ == e.id@
}

/// Whether some product-entitlement link ties this entitlement to an active
/// transaction.
fn entitled(transactions: &Vec<Transaction>, links: &Vec<(String, String)>, e: &Entitlement) -> (r:
    bool)
    ensures
        r == spec_entitled(transactions@, links@, *e),
{
    let nl = links.len();
    let nt = transactions.len();
    let mut li: usize = 0;
    while li < nl
        invariant
            0 <= li <= nl,
            nl == links@.len(),
            nt == transactions@.len(),
            forall|a: int, b: int|
                0 <= a < li && 0 <= b < nt ==> !(#[trigger] links@[a].0@
                    == #[trigger] transactions@[b].product_id@ && transactions@[b].status@
                    == "active"@ && links@[a].1@ == e.id@),
        decreases nl - li,
    {
        if str_eq(links[li].1.as_str(), e.id.as_str()) {
            let mut ti: usize = 0;
            while ti < nt
                invariant
                    0 <= ti <= nt,
                    li < nl,
                    nl == links@.len(),
                    nt == transactions@.len(),
                    links@[li as int].1@ == e.id@,
                    forall|b: int|
                        0 <= b < ti ==> !(links@[li as int].0@
                            == #[trigger] transactions@[b].product_id@ && transactions@[b].status@
                            == "active"@),
                decreases nt - ti,
            {
                if str_eq(links[li].0.as_str(), transactions[ti].product_id.as_str()) && str_eq(
                    transactions[ti].status.as_str(),
                    "active",
                ) {
                    assert(spec_entitled(transactions@, links@, *e));
                    return true;
                }
                ti = ti + 1;
            }
        }
        li = li + 1;
    }
    false
}

/// The entitlements a subscriber lookup reports as active: those of the
/// application's entitlements, in order, that some link ties to a product
/// with an active transaction of this subscriber.
pub fn entitlements_for_subscriber(
    transactions: &Vec<Transaction>,
    links: &Vec<(String, String)>,
    entitlements: &Vec<Entitlement>,
) -> (r: Vec<Entitlement>)
    ensures
        r@ == entitlements@.filter(
            |e: Entitlement| spec_entitled(transactions@, links@, e),
        ),
{
    let n = entitlements.len();
    let mut r: Vec<Entitlement> = Vec::new();
    let mut i: usize = 0;
    while i < n
        invariant
            0 <= i <= n,
            n == entitlements@.len(),
            r@ == entitlements@.take(i as int).filter(
                |e: Entitlement| spec_entitled(transactions@, links@, e),
            ),
        decreases n - i,
    {
        let ghost prefix = entitlements@.take(i as int);
        let ghost next = entitlements@.take(i + 1);
        proof {
            reveal(Seq::filter);
            assert(next.drop_last() =~= prefix);
            assert(next.last() == entitlements@[i as int]);
        }
        if entitled(transactions, links, &entitlements[i]) {
            let e = &entitlements[i];
            let copied = Entitlement {
                id: e.id.clone(),
                app_id: e.app_id.clone(),
                name: e.name.clone(),
                description: match &e.description {
                    Some(d) => Some(d.clone()),
                    None => None,
                },
                created_at: e.created_at.clone(),
            };
            assert(copied == entitlements@[i as int]);
            r.push(copied);
            proof {
                reveal(Seq::filter);
                let pred = |e: Entitlement| spec_entitled(transactions@, links@, e);
                assert(pred(entitlements@[i as int]));
                assert(next.filter(pred) == prefix.filter(pred).push(entitlements@[i as int]));
                assert(r@ =~= next.filter(pred));
            }
        } else {
            proof {
                reveal(Seq::filter);
                let pred = |e: Entitlement| spec_entitled(transactions@, links@, e);
                assert(!pred(entitlements@[i as int]));
                assert(next.filter(pred) == prefix.filter(pred));
            }
        }
        i = i + 1;
    }
    proof {
        assert(entitlements@.take(n as int) =~= entitlements@);
    }
    r
}


/// The product row a registration creates, and one link row per granted
/// entitlement, in the order given.
pub fn plan_product_creation(input: &CreateProduct, app_id: &str, id: String, now: String) -> (r: (
    Product,
    Vec<(String, String)>,
))
    ensures
        r.0.id == id,
        r.0.app_id@ == app_id@,
        r.0.store_product_id@ == input.store_product_id@,
        r.0.product_type@ == input.product_type@,
        r.0.display_name is None,
        r.0.description is None,
        r.0.price_micros is None,
        r.0.currency is None,
        r.0.subscription_period is None,
        r.0.trial_period is None,
        r.0.last_synced_at is None,
        r.0.created_at@ == now@,
        r.1@.len() == input.entitlement_ids@.len(),
        forall|k: int|
            0 <= k < r.1@.len() ==> (#[trigger] r.1@[k]).0@ == r.0.id@ && r.1@[k].1@
                == input.entitlement_ids@[k]@,
{
    let product = Product {
        id,
        app_id: app_id.to_owned(),
        store_product_id: input.store_product_id.clone(),
        product_type: input.product_type.clone(),
        display_name: None,
        description: None,
        price_micros: None,
        currency: None,
        subscription_period: None,
        trial_period: None,
        last_synced_at: None,
        created_at: now,
    };
    let mut links: Vec<(String, String)> = Vec::new();
    let n = input.entitlement_ids.len();
    let mut k: usize = 0;
    while k < n
        invariant
            0 <= k <= n,
            n == input.entitlement_ids@.len(),
            links@.len() == k,
            forall|m: int|
                0 <= m < k ==> (#[trigger] links@[m]).0@ == product.id@ && links@[m].1@
                    == input.entitlement_ids@[m]@,
        decreases n - k,
    {
        links.push((product.id.clone(), input.entitlement_ids[k].clone()));
        proof {
            assert(links@[k as int].0 == product.id);
            assert(links@[k as int].1 == input.entitlement_ids@[k as int]);
        }
        k = k + 1;
    }
    (product, links)
}

/// The endpoint row a webhook registration creates: active from the start,
/// under a caller-minted id and shared secret.
pub fn plan_webhook_creation(input: &CreateWebhook, id: String, secret: String, now: String) -> (e:
    WebhookEndpoint)
    ensures
        e.id == id,
        e.app_id@ == input.app_id@,
        e.url@ == input.url@,
        e.secret == secret,
        e.active == 1,
        e.created_at == now,
{
    WebhookEndpoint {
        id,
        app_id: input.app_id.clone(),
        url: input.url.clone(),
        secret,
        active: 1,
        created_at: now,
    }
}

/// One offerings entry for a product: catalog fields with listing defaults
/// (empty name, zero price, USD), and the names of its entitlements.
pub fn offering_product(product: &Product, entitlement_names: Vec<String>) -> (o: OfferingProduct)
    ensures
        o.store_product_id@ == product.store_product_id@,
        o.product_type@ == product.product_type@,
        o.display_name@ == crate::strutil::or_empty(product.display_name.deep_view()),
        o.description.deep_view() == product.description.deep_view(),
        o.price_micros == (match product.price_micros {
            Some(m) => m,
            None => 0,
        }),
        o.currency@ == (match product.currency {
            Some(ref c) => c@,
            None => "USD"@,
        }),
        o.subscription_period.deep_view() == product.subscription_period.deep_view(),
        o.trial_period.deep_view() == product.trial_period.deep_view(),
        o.entitlements == entitlement_names,
{
    let display_name = match &product.display_name {
        Some(n) => n.clone(),
        None => String::new(),
    };
    let description = match &product.description {
        Some(d) => Some(d.clone()),
        None => None,
    };
    let price_micros = match product.price_micros {
        Some(m) => m,
        None => 0,
    };
    let currency = match &product.currency {
        Some(c) => c.clone(),
        None => String::from_str("USD"),
    };
    let subscription_period = match &product.subscription_period {
        Some(p) => Some(p.clone()),
        None => None,
    };
    let trial_period = match &product.trial_period {
        Some(p) => Some(p.clone()),
        None => None,
    };
    OfferingProduct {
        store_product_id: product.store_product_id.clone(),
        product_type: product.product_type.clone(),
        display_name,
        description,
        price_micros,
        currency,
        subscription_period,
        trial_period,
        entitlements: entitlement_names,
    }
}

} // verus!
