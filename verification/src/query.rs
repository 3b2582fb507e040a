//! The query protocol: request frames, reply values, deadlines, and where
//! a query in flight stands.

use crate::can::{BusState, CanFrame};
use vstd::prelude::*;

verus! {

/// The byte that fills the payload of a request.
pub const QUERY_FILL: u8 = 0xFF;

/// How long a query without a timeout of its own may stay unanswered, in
/// milliseconds.
pub const DEFAULT_QUERY_TIMEOUT_MS: u32 = 1000;

/// The request that asks the node at `id` for its value.
pub open spec fn query_request(id: u32) -> CanFrame {
    CanFrame {
        id,
        data: [
            QUERY_FILL,
            QUERY_FILL,
            QUERY_FILL,
            QUERY_FILL,
            QUERY_FILL,
            QUERY_FILL,
            QUERY_FILL,
            QUERY_FILL,
        ],
    }
}

/// The value a reply carries: its first payload byte.
pub open spec fn reply_value(frame: CanFrame) -> u32 {
    frame.head() as u32
}

/// Builds the request that asks the node at `id` for its value.
pub fn query_frame(id: u32) -> (frame: CanFrame)
    ensures
        frame == query_request(id),
{
    let frame = CanFrame { id, data: [QUERY_FILL; 8] };
    assert(frame.data =~= query_request(id).data);
    frame
}

/// Reads the value out of a reply.
pub fn query_value(frame: &CanFrame) -> (value: u32)
    ensures
        value == reply_value(*frame),
{
    frame.data[0] as u32
}

/// A query in flight: the node it went to and the time it gives up at,
/// in milliseconds since the Unix epoch.
#[derive(Debug, Clone, Copy, PartialEq, Eq)]
pub struct PendingQuery {
    pub address: u32,
    pub deadline: i64,
}

/// Where a query in flight stands.
#[derive(Debug, Clone, Copy, PartialEq, Eq)]
pub enum QueryPoll {
    /// The reply came; this is its value.
    Reply(u32),
    /// The deadline passed without a reply. The node may still have seen
    /// the request.
    TimedOut,
    /// No reply yet, and the deadline has not passed.
    Waiting,
}

/// The timeout a query runs with: its own, or the default.
pub open spec fn effective_timeout(timeout_ms: Option<u32>) -> u32 {
    match timeout_ms {
        Some(t) => t,
        None => DEFAULT_QUERY_TIMEOUT_MS,
    }
}

/// The time a query that began at `now` gives up at: `now` plus its
/// timeout, or the last instant there is if that lies beyond it.
pub open spec fn query_deadline(timeout_ms: Option<u32>, now: i64) -> i64 {
    if now + effective_timeout(timeout_ms) > i64::MAX {
        i64::MAX
    } else {
        (now + effective_timeout(timeout_ms)) as i64
    }
}

/// Computes the time a query that begins at `now` gives up at.
pub fn deadline_for(timeout_ms: Option<u32>, now: i64) -> (deadline: i64)
    ensures
        deadline == query_deadline(timeout_ms, now),
{
    let timeout: u32 = match timeout_ms {
        Some(t) => t,
        None => DEFAULT_QUERY_TIMEOUT_MS,
    };
    match now.checked_add(timeout as i64) {
        Some(deadline) => deadline,
        None => i64::MAX,
    }
}

impl QueryPoll {
    /// What the query resolves to for its caller: the value of the reply,
    /// and 0 where there is none.
    pub open spec fn value_or_default(self) -> u32 {
        match self {
            QueryPoll::Reply(value) => value,
            _ => 0,
        }
    }
}

impl BusState {
    /// The query in flight can be polled at time `now` without a counter
    /// running over: up to its deadline a poll asks the transport for a
    /// frame.
    pub open spec fn can_poll(self, pending: PendingQuery, now: i64) -> bool {
        now <= pending.deadline ==> self.can_recv(true, now)
    }

    /// The query in flight can be polled without a counter running over,
    /// whatever the time.
    pub open spec fn can_poll_anytime(self, pending: PendingQuery) -> bool {
        forall|now: i64| self.can_poll(pending, now)
    }

    /// The transport after a query in flight was polled at time `now`, and
    /// where the query stands. Up to the deadline a frame that comes back
    /// is the reply. At the deadline without one, and at any time after the
    /// deadline, the query has timed out; after the deadline the transport
    /// is not even asked.
    pub open spec fn poll(self, pending: PendingQuery, now: i64) -> (BusState, QueryPoll) {
        if now > pending.deadline {
            (self, QueryPoll::TimedOut)
        } else {
            let (after, reply) = self.recv(true, now);
            (
                after,
                match reply {
                    Some(frame) => QueryPoll::Reply(reply_value(frame)),
                    None => if now == pending.deadline {
                        QueryPoll::TimedOut
                    } else {
                        QueryPoll::Waiting
                    },
                },
            )
        }
    }

    /// A query that has no time to wait can run without a counter running
    /// over, whatever the time.
    pub open spec fn can_query_at_once(self) -> bool {
        self.can_send() && self.can_recv_anytime(true)
    }

    /// The transport after a query for `id` with timeout 0 ran at time
    /// `now`, and where the query stands: the request went out, its
    /// deadline is `now`, and the poll at `now` resolved it.
    pub open spec fn query_at_once(self, id: u32, now: i64) -> (BusState, QueryPoll) {
        self.send(query_request(id), now).poll(PendingQuery { address: id, deadline: now }, now)
    }
}

/// A query polled at its deadline or later has resolved. Where the
/// transport hands nothing back, and always after the deadline, it has
/// resolved as timed out, and the transport is as it was.
pub proof fn lemma_query_resolves_by_deadline(bus: BusState, pending: PendingQuery, now: i64)
    requires
        now >= pending.deadline,
    ensures
        bus.poll(pending, now).1 != QueryPoll::Waiting,
        now > pending.deadline || !bus.deliverable(true, now) ==> bus.poll(pending, now) == (
            bus,
            QueryPoll::TimedOut,
        ),
{
}

/// Before its deadline a query resolves only by a reply: while the
/// transport hands nothing back, the query waits.
pub proof fn lemma_query_waits_for_reply(bus: BusState, pending: PendingQuery, now: i64)
    requires
        now < pending.deadline,
    ensures
        bus.poll(pending, now).1 == QueryPoll::Waiting <==> !bus.deliverable(true, now),
        bus.poll(pending, now).1 != QueryPoll::TimedOut,
{
}

/// A reply counts only up to the deadline: a poll resolves the query with
/// the value of a frame exactly when it takes place at the deadline or
/// before and the transport hands that frame out then.
pub proof fn lemma_reply_only_within_deadline(bus: BusState, pending: PendingQuery, now: i64)
    ensures
        bus.poll(pending, now).1 is Reply <==> now <= pending.deadline && bus.deliverable(
            true,
            now,
        ),
        bus.poll(pending, now).1 is Reply ==> bus.poll(pending, now).1 == QueryPoll::Reply(
            reply_value(bus.echo()),
        ),
{
}

/// The deadline of a query lies its timeout after its beginning, unless
/// time ends before that.
pub proof fn lemma_deadline_bounds_wait(timeout_ms: Option<u32>, begun: i64)
    ensures
        query_deadline(timeout_ms, begun) <= begun + effective_timeout(timeout_ms),
        begun + effective_timeout(timeout_ms) <= i64::MAX ==> query_deadline(timeout_ms, begun)
            == begun + effective_timeout(timeout_ms),
        query_deadline(Some(0u32), begun) == begun,
{
}

/// A query resolves within its timeout: polled at any time from its
/// beginning plus its timeout on, it does not wait any more, whatever the
/// transport does.
pub proof fn lemma_query_resolves_within_timeout(
    bus: BusState,
    id: u32,
    timeout_ms: Option<u32>,
    begun: i64,
    now: i64,
)
    requires
        now >= begun + effective_timeout(timeout_ms),
    ensures
        bus.poll(
            PendingQuery { address: id, deadline: query_deadline(timeout_ms, begun) },
            now,
        ).1 != QueryPoll::Waiting,
{
}

/// A query with timeout 0 is resolved by the poll that follows its request
/// at once: it never waits.
pub proof fn lemma_query_at_once_resolves(bus: BusState, id: u32, now: i64)
    ensures
        bus.query_at_once(id, now).1 != QueryPoll::Waiting,
        query_deadline(Some(0u32), now) == now,
{
}

} // verus!
