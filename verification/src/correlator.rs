//! The RPC correlator: tracks outstanding requests keyed by the id they
//! were sent with, matches inbound replies back to the call that issued
//! them, and abandons calls whose deadline has passed.
//!
//! A pending call resolves exactly once: either a matching reply
//! fulfills it, or its timeout expires — whichever happens first wins,
//! and the loser observes nothing to do. A reply that matches no
//! pending call (late, duplicate, or already timed out) is reported
//! [`CompleteOutcome::Unmatched`] and discarded, never treated as an
//! error: the harness may legitimately delay or redeliver messages.

use std::collections::HashMap;
use vstd::prelude::*;

use crate::envelope::Body;
use crate::idgen::{next_id_step, MsgIdGen};

verus! {

broadcast use vstd::std_specs::hash::group_hash_axioms;

/// The state of one outstanding call.
#[derive(Debug, Clone, PartialEq, Eq)]
pub enum CallState {
    /// Issued and not yet resolved. `issued_at` is the clock reading
    /// when the call was issued; `deadline` is the clock reading at
    /// which the call times out, if one was requested.
    Waiting { issued_at: u64, deadline: Option<u64> },
    /// A matching reply arrived; its body waits to be claimed.
    Fulfilled { body: Body },
}

/// What `complete` found for an inbound reply.
#[derive(Clone, Copy, Debug, PartialEq, Eq, Structural)]
pub enum CompleteOutcome {
    /// The reply matched a waiting call and fulfilled it.
    Fulfilled,
    /// No waiting call matched; the reply was discarded.
    Unmatched,
}

/// What `try_await` observed for a pending call.
#[derive(Debug, Clone, PartialEq, Eq)]
pub enum AwaitOutcome {
    /// The call was fulfilled; here is the reply body. The call is
    /// resolved and removed.
    Ready(Body),
    /// The deadline passed before any matching reply. The call is
    /// resolved and removed; a reply arriving later is `Unmatched`.
    TimedOut,
    /// Neither a reply nor the deadline yet; the call stays pending.
    Pending,
}

/// Every pending id lies below `bound` (the generator's counter), so a
/// freshly generated id can never collide with a pending call.
pub open spec fn ids_below(m: Map<u64, CallState>, bound: u64) -> bool {
    forall|k: u64| m.contains_key(k) ==> k < bound
}

/// The transition one `complete` call makes: a reply to `id` fulfills
/// the waiting call with that id, if there is one, and is otherwise
/// discarded with nothing changed.
pub open spec fn complete_step(
    pre: Map<u64, CallState>,
    post: Map<u64, CallState>,
    id: u64,
    body: Body,
    r: CompleteOutcome,
) -> bool {
    if pre.contains_key(id) && pre[id] is Waiting {
        &&& r == CompleteOutcome::Fulfilled
        &&& post == pre.insert(id, CallState::Fulfilled { body })
    } else {
        &&& r == CompleteOutcome::Unmatched
        &&& post == pre
    }
}

/// The transition one `try_await` call makes on the call `id`: claim
/// the reply if one arrived, time out if the deadline has passed, and
/// otherwise leave the call pending. A resolved call is removed, so it
/// can never resolve a second time.
pub open spec fn await_step(
    pre: Map<u64, CallState>,
    post: Map<u64, CallState>,
    id: u64,
    now: u64,
    r: AwaitOutcome,
) -> bool {
    &&& pre.contains_key(id)
    &&& match pre[id] {
        CallState::Fulfilled { body } => {
            &&& r == AwaitOutcome::Ready(body)
            &&& post == pre.remove(id)
        },
        CallState::Waiting { issued_at: _, deadline } => {
            if deadline matches Some(d) && now >= d {
                &&& r == AwaitOutcome::TimedOut
                &&& post == pre.remove(id)
            } else {
                &&& r == AwaitOutcome::Pending
                &&& post == pre
            }
        },
    }
}

/// What `try_await` should do with the call it found.
enum Decision {
    Claim,
    Expire,
    Wait,
}

/// Tracks the node's outstanding RPC calls, keyed by the `msg_id` they
/// were sent with.
pub struct Correlator {
    pending: HashMap<u64, CallState>,
}

impl View for Correlator {
    type V = Map<u64, CallState>;

    closed spec fn view(&self) -> Map<u64, CallState> {
        self.pending@
    }
}

impl Correlator {
    /// A correlator with no outstanding calls.
    pub fn new() -> (r: Correlator)
        ensures
            r@ == Map::<u64, CallState>::empty(),
    {
        Correlator { pending: HashMap::new() }
    }

    /// How many calls are outstanding.
    pub fn len(&self) -> (n: usize)
        ensures
            n == self@.dom().len(),
    {
        self.pending.len()
    }

    /// Whether the call issued with `id` is still tracked (waiting or
    /// fulfilled, not yet claimed or timed out).
    pub fn is_pending(&self, id: u64) -> (r: bool)
        ensures
            r == self@.contains_key(id),
    {
        self.pending.contains_key(&id)
    }

    /// Issues a new call: draws a fresh id from the generator and
    /// stores a waiting entry under it. The returned id is the one to
    /// embed as `msg_id` in the outgoing request, and the key to later
    /// hand to `try_await`.
    pub fn issue(
        &mut self,
        gen: &mut MsgIdGen,
        issued_at: u64,
        deadline: Option<u64>,
    ) -> (id: u64)
        requires
            old(gen).counter < u64::MAX,
            ids_below(old(self)@, old(gen).counter),
        ensures
            next_id_step(*old(gen), *final(gen), id),
            !old(self)@.contains_key(id),
            final(self)@ == old(self)@.insert(id, CallState::Waiting { issued_at, deadline }),
            ids_below(final(self)@, final(gen).counter),
    {
        let id = gen.next();
        self.pending.insert(id, CallState::Waiting { issued_at, deadline });
        id
    }

    /// Hands an inbound reply body to the call it answers. Fulfills the
    /// waiting call whose id is `in_reply_to`; if no such call is
    /// waiting — the reply is late, duplicated, or the call already
    /// resolved — the body is discarded and `Unmatched` reported.
    pub fn complete(&mut self, in_reply_to: u64, body: Body) -> (r: CompleteOutcome)
        ensures
            complete_step(old(self)@, final(self)@, in_reply_to, body, r),
    {
        let waiting = match self.pending.get(&in_reply_to) {
            Some(CallState::Waiting { .. }) => true,
            _ => false,
        };
        if waiting {
            self.pending.insert(in_reply_to, CallState::Fulfilled { body });
            CompleteOutcome::Fulfilled
        } else {
            CompleteOutcome::Unmatched
        }
    }

    /// Observes the call issued as `id` at clock reading `now`: claims
    /// the reply if one has arrived, reports a timeout if the deadline
    /// has passed, and otherwise leaves the call pending. Claiming and
    /// timing out both remove the call, so each call resolves at most
    /// once and a timed-out call can never be resurrected by a late
    /// reply.
    pub fn try_await(&mut self, id: u64, now: u64) -> (r: AwaitOutcome)
        requires
            old(self)@.contains_key(id),
        ensures
            await_step(old(self)@, final(self)@, id, now, r),
    {
        let decision = match self.pending.get(&id) {
            Some(CallState::Fulfilled { .. }) => Decision::Claim,
            Some(CallState::Waiting { issued_at: _, deadline }) => match deadline {
                Some(d) => {
                    if now >= *d {
                        Decision::Expire
                    } else {
                        Decision::Wait
                    }
                },
                None => Decision::Wait,
            },
            None => vstd::pervasive::unreached(),
        };
        match decision {
            Decision::Claim => {
                match self.pending.remove(&id) {
                    Some(CallState::Fulfilled { body }) => AwaitOutcome::Ready(body),
                    _ => vstd::pervasive::unreached(),
                }
            },
            Decision::Expire => {
                self.pending.remove(&id);
                AwaitOutcome::TimedOut
            },
            Decision::Wait => AwaitOutcome::Pending,
        }
    }
}

/// An `issue` followed by a matching `complete` always fulfills the
/// call, and an `await` at any later clock reading — before or after
/// the deadline — resolves with exactly the reply body, never a
/// timeout.
pub proof fn lemma_reply_resolves_await(
    pre: Map<u64, CallState>,
    mid: Map<u64, CallState>,
    post: Map<u64, CallState>,
    id: u64,
    issued_at: u64,
    deadline: Option<u64>,
    body: Body,
    r: CompleteOutcome,
    now: u64,
)
    requires
        !pre.contains_key(id),
        mid == pre.insert(id, CallState::Waiting { issued_at, deadline }),
        complete_step(mid, post, id, body, r),
    ensures
        r == CompleteOutcome::Fulfilled,
        await_step(post, post.remove(id), id, now, AwaitOutcome::Ready(body)),
{
}

/// An `issue` with a deadline followed by no matching reply times out:
/// an `await` strictly before the deadline reports the call pending,
/// one at or after the deadline resolves it as timed out, and a reply
/// arriving after that resolution is `Unmatched` and alters nothing.
pub proof fn lemma_timeout_resolves_await(
    pre: Map<u64, CallState>,
    mid: Map<u64, CallState>,
    id: u64,
    issued_at: u64,
    d: u64,
    now: u64,
    late_body: Body,
)
    requires
        !pre.contains_key(id),
        mid == pre.insert(id, CallState::Waiting { issued_at, deadline: Some(d) }),
        now >= d,
    ensures
        forall|t: u64| t < d ==> await_step(mid, mid, id, t, AwaitOutcome::Pending),
        await_step(mid, mid.remove(id), id, now, AwaitOutcome::TimedOut),
        complete_step(mid.remove(id), mid.remove(id), id, late_body, CompleteOutcome::Unmatched),
{
}

/// Replaying the exact same reply against the correlator is idempotent:
/// the first delivery fulfills the call, the second is `Unmatched` and
/// leaves the already-resolved call untouched.
pub proof fn lemma_complete_idempotent(
    pre: Map<u64, CallState>,
    mid: Map<u64, CallState>,
    post: Map<u64, CallState>,
    id: u64,
    body: Body,
    r2: CompleteOutcome,
)
    requires
        complete_step(pre, mid, id, body, CompleteOutcome::Fulfilled),
        complete_step(mid, post, id, body, r2),
    ensures
        r2 == CompleteOutcome::Unmatched,
        post == mid,
{
}

} // verus!
