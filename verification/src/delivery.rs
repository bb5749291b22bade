//! Webhook delivery engine: the per-delivery state machine, its retry and
//! backoff policy, and the selection of due deliveries for a polling cycle.
//!
//! The engine's loop itself (HTTP dispatch, sleeping, persistence) lives
//! outside the library; every decision it takes goes through the functions
//! here, against an injected clock value.

use crate::models::WebhookEndpoint;
use vstd::prelude::*;

verus! {

/// Most dispatch attempts a delivery may consume before it is dead-lettered.
pub const MAX_ATTEMPTS: u32 = 10;

/// Most deliveries one polling cycle dispatches.
pub const BATCH_SIZE: usize = 10;

/// Where a delivery stands. `Delivered` and `DeadLetter` are terminal.
#[derive(Clone, Copy, Debug, PartialEq, Eq, Structural)]
pub enum DeliveryStatus {
    Pending,
    Delivered,
    Failed,
    DeadLetter,
}

impl DeliveryStatus {
    /// The stable name used in persisted records.
    pub fn as_str(&self) -> (r: &'static str)
        ensures
            r@ == spec_delivery_status_str(*self),
    {
        match self {
            DeliveryStatus::Pending => "pending",
            DeliveryStatus::Delivered => "delivered",
            DeliveryStatus::Failed => "failed",
            DeliveryStatus::DeadLetter => "dead_letter",
        }
    }
}

/// The persisted name of a `DeliveryStatus`.
pub open spec fn spec_delivery_status_str(s: DeliveryStatus) -> Seq<char> {
    match s {
        DeliveryStatus::Pending => "pending"@,
        DeliveryStatus::Delivered => "delivered"@,
        DeliveryStatus::Failed => "failed"@,
        DeliveryStatus::DeadLetter => "dead_letter"@,
    }
}

/// One delivery of one event to one endpoint. Times are seconds of an
/// injected clock.
#[derive(Clone, Debug)]
pub struct WebhookDelivery {
    pub id: String,
    pub endpoint_id: String,
    pub event_id: String,
    pub status: DeliveryStatus,
    pub attempts: u32,
    pub last_attempt_at: Option<u64>,
    pub last_error: Option<String>,
    pub next_retry_at: Option<u64>,
}

/// Well-formedness of a delivery record: `attempts` counts the dispatch
/// attempts made so far; a retry is scheduled exactly while the status is
/// `Failed`; a dead-lettered delivery has consumed all its attempts.
pub open spec fn wf_delivery(d: WebhookDelivery) -> bool {
    match d.status {
        DeliveryStatus::Pending => d.attempts == 0 && d.next_retry_at is None
            && d.last_attempt_at is None,
        DeliveryStatus::Failed => 1 <= d.attempts < MAX_ATTEMPTS && d.next_retry_at is Some
            && d.last_attempt_at is Some,
        DeliveryStatus::Delivered => 1 <= d.attempts <= MAX_ATTEMPTS && d.next_retry_at is None
            && d.last_attempt_at is Some,
        DeliveryStatus::DeadLetter => d.attempts == MAX_ATTEMPTS && d.next_retry_at is None
            && d.last_attempt_at is Some,
    }
}

/// A delivery in a state it can never leave.
pub open spec fn is_terminal(d: WebhookDelivery) -> bool {
    d.status is Delivered || d.status is DeadLetter
}

/// A fresh delivery for one (endpoint, event) pair.
pub fn new_delivery(id: String, endpoint_id: String, event_id: String) -> (d: WebhookDelivery)
    ensures
        d.id == id,
        d.endpoint_id == endpoint_id,
        d.event_id == event_id,
        d.status == DeliveryStatus::Pending,
        d.attempts == 0,
        d.last_attempt_at is None,
        d.last_error is None,
        d.next_retry_at is None,
        wf_delivery(d),
{
    WebhookDelivery {
        id,
        endpoint_id,
        event_id,
        status: DeliveryStatus::Pending,
        attempts: 0,
        last_attempt_at: None,
        last_error: None,
        next_retry_at: None,
    }
}

/// Seconds to wait before the retry that follows dispatch attempt number
/// `attempts` (1-based). The table plateaus at one hour: attempts beyond the
/// table reuse its last entry.
pub open spec fn spec_retry_delay(attempts: nat) -> nat {
    if attempts <= 1 {
        1
    } else if attempts == 2 {
        5
    } else if attempts == 3 {
        30
    } else if attempts == 4 {
        120
    } else if attempts == 5 {
        600
    } else {
        3600
    }
}

/// Backoff delay, in seconds, after the `attempts`-th dispatch attempt.
pub fn next_retry_delay(attempts: u32) -> (delay: u64)
    requires
        attempts >= 1,
    ensures
        delay == spec_retry_delay(attempts as nat),
{
    let table: [u64; 6] = [1, 5, 30, 120, 600, 3600];
    let index: usize = if attempts as usize - 1 < 5 {
        attempts as usize - 1
    } else {
        5
    };
    table[index]
}

impl WebhookDelivery {
    /// Applies the outcome of one dispatch attempt at clock time `now`:
    /// success delivers; failure schedules a retry after the backoff delay,
    /// or dead-letters once the attempt budget is spent.
    pub fn record_attempt(&mut self, outcome: Result<(), String>, now: u64)
        requires
            wf_delivery(*old(self)),
            !is_terminal(*old(self)),
            now <= u64::MAX - 3600,
        ensures
            wf_delivery(*final(self)),
            final(self).id == old(self).id,
            final(self).endpoint_id == old(self).endpoint_id,
            final(self).event_id == old(self).event_id,
            final(self).attempts == old(self).attempts + 1,
            final(self).last_attempt_at == Some(now),
            outcome is Ok ==> final(self).status == DeliveryStatus::Delivered && final(self).next_retry_at is None && final(self).last_error == old(self).last_error,
            outcome matches Err(msg) ==> final(self).last_error == Some(msg) && (if old(self).attempts + 1 >= MAX_ATTEMPTS {
                final(self).status == DeliveryStatus::DeadLetter && final(self).next_retry_at
                    is None
            } else {
                final(self).status == DeliveryStatus::Failed && final(self).next_retry_at == Some(
                    (now + spec_retry_delay((old(self).attempts + 1) as nat)) as u64,
                )
            }),
    {
        let attempts = self.attempts + 1;
        self.attempts = attempts;
        self.last_attempt_at = Some(now);
        match outcome {
            Ok(()) => {
                self.status = DeliveryStatus::Delivered;
                self.next_retry_at = None;
            },
            Err(msg) => {
                self.last_error = Some(msg);
                if attempts >= MAX_ATTEMPTS {
                    self.status = DeliveryStatus::DeadLetter;
                    self.next_retry_at = None;
                } else {
                    self.status = DeliveryStatus::Failed;
                    self.next_retry_at = Some(now + next_retry_delay(attempts));
                }
            },
        }
    }
}

/// A delivery whose turn has come: not terminal, and either never scheduled
/// or past its scheduled retry time.
pub open spec fn spec_due(d: WebhookDelivery, now: u64) -> bool {
    &&& (d.status is Pending || d.status is Failed)
    &&& match d.next_retry_at {
        Option::None => true,
        Option::Some(t) => t <= now,
    }
}

/// Whether a delivery is due for dispatch at clock time `now`.
pub fn is_due(d: &WebhookDelivery, now: u64) -> (r: bool)
    ensures
        r == spec_due(*d, now),
{
    match d.status {
        DeliveryStatus::Pending | DeliveryStatus::Failed => match d.next_retry_at {
            Option::None => true,
            Option::Some(t) => t <= now,
        },
        _ => false,
    }
}

/// Some endpoint with this id is registered and active.
pub open spec fn spec_endpoint_active(endpoints: Seq<WebhookEndpoint>, id: Seq<char>) -> bool {
    exists|k: int|
        0 <= k < endpoints.len() && endpoints[k].id@ == id && endpoints[k].active == 1
}

/// Whether an active endpoint with this id is registered.
pub fn endpoint_is_active(endpoints: &Vec<WebhookEndpoint>, id: &String) -> (r: bool)
    ensures
        r == spec_endpoint_active(endpoints@, id@),
{
    let n = endpoints.len();
    let mut k: usize = 0;
    while k < n
        invariant
            0 <= k <= n,
            n == endpoints@.len(),
            forall|m: int|
                0 <= m < k ==> !(endpoints@[m].id@ == id@ && endpoints@[m].active == 1),
        decreases n - k,
    {
        if endpoints[k].active == 1 && endpoints[k].id.eq(id) {
            assert(spec_endpoint_active(endpoints@, id@));
            return true;
        }
        k = k + 1;
    }
    false
}

/// Index `i` of the delivery list holds a dispatchable row: due now, with an
/// active endpoint.
pub open spec fn spec_candidate(
    deliveries: Seq<WebhookDelivery>,
    endpoints: Seq<WebhookEndpoint>,
    i: int,
    now: u64,
) -> bool {
    spec_due(deliveries[i], now) && spec_endpoint_active(endpoints, deliveries[i].endpoint_id@)
}

/// Selects one polling cycle's batch: the indices of the first deliveries,
/// at most `BATCH_SIZE` of them, that are due and have an active endpoint.
pub fn select_due_batch(
    deliveries: &Vec<WebhookDelivery>,
    endpoints: &Vec<WebhookEndpoint>,
    now: u64,
) -> (batch: Vec<usize>)
    ensures
        batch@.len() <= BATCH_SIZE,
        forall|a: int, b: int| 0 <= a < b < batch@.len() ==> batch@[a] < batch@[b],
        forall|a: int|
            0 <= a < batch@.len() ==> batch@[a] < deliveries@.len() && spec_candidate(
                deliveries@,
                endpoints@,
                batch@[a] as int,
                now,
            ),
        forall|m: int|
            0 <= m < deliveries@.len() && spec_candidate(deliveries@, endpoints@, m, now)
                && !batch@.contains(m as usize) ==> batch@.len() == BATCH_SIZE && m > batch@[
                BATCH_SIZE - 1
            ],
{
    let n = deliveries.len();
    let mut batch: Vec<usize> = Vec::new();
    let mut i: usize = 0;
    while i < n && batch.len() < BATCH_SIZE
        invariant
            0 <= i <= n,
            n == deliveries@.len(),
            batch@.len() <= BATCH_SIZE,
            forall|a: int, b: int| 0 <= a < b < batch@.len() ==> batch@[a] < batch@[b],
            forall|a: int|
                0 <= a < batch@.len() ==> batch@[a] < i && spec_candidate(
                    deliveries@,
                    endpoints@,
                    batch@[a] as int,
                    now,
                ),
            forall|m: int|
                0 <= m < i && spec_candidate(deliveries@, endpoints@, m, now) ==> batch@.contains(
                    m as usize,
                ),
        decreases n - i,
    {
        let ghost prev = batch@;
        let candidate = is_due(&deliveries[i], now) && endpoint_is_active(
            endpoints,
            &deliveries[i].endpoint_id,
        );
        if candidate {
            batch.push(i);
        }
        proof {
            if candidate {
                assert(batch@ == prev.push(i));
                assert(batch@[batch@.len() - 1] == i);
                assert(batch@.contains(i));
            }
            assert forall|m: int|
                0 <= m < i + 1 && spec_candidate(deliveries@, endpoints@, m, now) implies batch@
                .contains(m as usize) by {
                if m < i {
                    let k = choose|k: int| 0 <= k < prev.len() && prev[k] == m as usize;
                    assert(batch@[k] == m as usize);
                } else {
                    assert(m == i && candidate);
                }
            }
        }
        i = i + 1;
    }
    batch
}

/// No dispatchable row is terminal: a delivered or dead-lettered delivery
/// is never selected into a batch, so it never transitions again.
pub proof fn lemma_candidate_not_terminal(
    deliveries: Seq<WebhookDelivery>,
    endpoints: Seq<WebhookEndpoint>,
    i: int,
    now: u64,
)
    requires
        0 <= i < deliveries.len(),
        spec_candidate(deliveries, endpoints, i, now),
    ensures
        !is_terminal(deliveries[i]),
{
}

/// Dead-lettered deliveries have consumed exactly the full attempt budget.
pub proof fn lemma_dead_letter_attempts(d: WebhookDelivery)
    requires
        wf_delivery(d),
        d.status is DeadLetter,
    ensures
        d.attempts == MAX_ATTEMPTS,
{
}

/// Delivered deliveries have no retry scheduled.
pub proof fn lemma_delivered_no_retry(d: WebhookDelivery)
    requires
        wf_delivery(d),
        d.status is Delivered,
    ensures
        d.next_retry_at is None,
{
}

/// A terminal delivery is never due again, at any clock time: the engine
/// never selects it, so it never transitions afterward.
pub proof fn lemma_terminal_never_due(d: WebhookDelivery, now: u64)
    requires
        is_terminal(d),
    ensures
        !spec_due(d, now),
{
}

} // verus!
