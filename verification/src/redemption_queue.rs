use vstd::prelude::*;

use crate::errors::RenewraError;
use crate::identity::Identity;

verus! {

/// Lifecycle status of a redemption request. A request only ever advances
/// Pending -> Approved -> Settled; the engine creates Pending entries and
/// an external settler drives the two later transitions.
#[derive(Clone, Copy, Debug, PartialEq, Eq, Structural)]
pub enum RedemptionStatus {
    /// Request submitted, awaiting approval.
    Pending,
    /// Request approved, awaiting settlement.
    Approved,
    /// Shares burned and payment transferred.
    Settled,
}

impl RedemptionStatus {
    /// The allowed lifecycle transitions: Pending to Approved, and Approved
    /// to Settled. No step is ever skipped or undone.
    pub open spec fn spec_can_transition_to(self, next: RedemptionStatus) -> bool {
        ||| (self is Pending && next is Approved)
        ||| (self is Approved && next is Settled)
    }

    /// Whether a settler may advance a request from this status to `next`.
    pub fn can_transition_to(self, next: RedemptionStatus) -> (r: bool)
        ensures
            r == self.spec_can_transition_to(next),
    {
        match (self, next) {
            (RedemptionStatus::Pending, RedemptionStatus::Approved) => true,
            (RedemptionStatus::Approved, RedemptionStatus::Settled) => true,
            _ => false,
        }
    }
}

/// A queued intent to convert shares back into payment assets at a future
/// settlement.
#[derive(Clone, Copy, Debug, PartialEq, Eq, Structural)]
pub struct RedemptionRequest {
    /// Who asked to redeem.
    pub requester: Identity,
    /// How many share base units to redeem; always positive.
    pub token_amount: u64,
    /// Unix timestamp of the request.
    pub requested_at: i64,
    /// Where the request stands in its lifecycle.
    pub status: RedemptionStatus,
    /// 1-indexed position in the queue's lifetime, unique among all requests.
    pub request_id: u64,
}

/// Bounded FIFO queue of redemption requests. Insertion order is the
/// settlement priority. This engine never removes entries: running into the
/// capacity bound is a hard stop, and compaction is the settler's concern.
pub struct RedemptionQueue {
    pub requests: Vec<RedemptionRequest>,
}

/// Capacity bound of the redemption queue.
pub const MAX_REQUESTS: usize = 100;

impl RedemptionQueue {
    /// The queue never exceeds its capacity, every queued amount is
    /// positive, and the request at position `i` (0-based) carries id
    /// `i + 1`.
    pub open spec fn wf(self) -> bool {
        &&& self.requests@.len() <= MAX_REQUESTS
        &&& forall|i: int|
            0 <= i < self.requests@.len() ==> {
                &&& (#[trigger] self.requests@[i]).request_id == i + 1
                &&& self.requests@[i].token_amount > 0
            }
    }

    /// An empty queue.
    pub fn new() -> (q: RedemptionQueue)
        ensures
            q.wf(),
            q.requests@.len() == 0,
    {
        RedemptionQueue { requests: Vec::new() }
    }

    /// How many requests have been enqueued over the queue's lifetime.
    pub fn len(&self) -> (n: usize)
        ensures
            n == self.requests@.len(),
    {
        self.requests.len()
    }

    /// Appends a new Pending request and assigns it the next 1-indexed id,
    /// unless the queue is at capacity, which leaves it untouched.
    pub fn enqueue(&mut self, requester: Identity, token_amount: u64, now: i64) -> (r: Result<
        u64,
        RenewraError,
    >)
        requires
            old(self).wf(),
            token_amount > 0,
        ensures
            final(self).wf(),
            old(self).requests@.len() >= MAX_REQUESTS ==> {
                &&& r == Err::<u64, RenewraError>(RenewraError::RedemptionQueueFull)
                &&& final(self).requests@ == old(self).requests@
            },
            old(self).requests@.len() < MAX_REQUESTS ==> {
                &&& r == Ok::<u64, RenewraError>((old(self).requests@.len() + 1) as u64)
                &&& final(self).requests@ == old(self).requests@.push(
                    (RedemptionRequest {
                        requester,
                        token_amount,
                        requested_at: now,
                        status: RedemptionStatus::Pending,
                        request_id: (old(self).requests@.len() + 1) as u64,
                    }),
                )
            },
    {
        if self.requests.len() >= MAX_REQUESTS {
            return Err(RenewraError::RedemptionQueueFull);
        }
        let request_id: u64 = (self.requests.len() + 1) as u64;
        let request = RedemptionRequest {
            requester,
            token_amount,
            requested_at: now,
            status: RedemptionStatus::Pending,
            request_id,
        };
        self.requests.push(request);
        Ok(request_id)
    }
}

/// Law: request ids are assigned sequentially. In a well-formed queue the
/// request at 0-based position `i` carries id `i + 1`, so the Nth request
/// ever enqueued was assigned id N, independent of its contents.
pub proof fn lemma_request_ids_sequential(q: RedemptionQueue, i: int)
    requires
        q.wf(),
        0 <= i < q.requests@.len(),
    ensures
        q.requests@[i].request_id == i + 1,
{
}

} // verus!
