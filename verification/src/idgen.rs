//! The message-id generator: a strictly increasing sequence of
//! locally-unique ids for outgoing messages.
//!
//! Every call to [`MsgIdGen::next`] returns the current counter value
//! and advances the counter, so across any history of calls — however
//! the calling executions interleave around the generator's exclusive
//! access — the returned ids are pairwise distinct. The counter is
//! 64-bit and never reused; exhausting it is accepted as out of scope
//! at the message volumes a harness drives.

use vstd::prelude::*;

verus! {

/// Produces the node's outgoing message ids.
#[derive(Debug, Clone, PartialEq, Eq, Structural)]
pub struct MsgIdGen {
    /// The next id to hand out.
    pub counter: u64,
}

/// The transition one `next` call makes: the returned `id` is the
/// counter of the `pre` state, and `post` holds the advanced counter.
pub open spec fn next_id_step(pre: MsgIdGen, post: MsgIdGen, id: u64) -> bool {
    &&& id == pre.counter
    &&& post.counter == pre.counter + 1
}

impl MsgIdGen {
    /// A fresh generator, whose first id will be 0.
    pub fn new() -> (r: MsgIdGen)
        ensures
            r.counter == 0,
    {
        MsgIdGen { counter: 0 }
    }

    /// Returns a message id never handed out before and advances the
    /// counter.
    pub fn next(&mut self) -> (id: u64)
        requires
            old(self).counter < u64::MAX,
        ensures
            next_id_step(*old(self), *final(self), id),
    {
        let id = self.counter;
        self.counter = self.counter + 1;
        id
    }
}

/// Ids are handed out in strictly increasing order: a `next` call made
/// from any state the generator reaches after an earlier `next` call
/// returns a strictly larger id. Pairwise distinctness of all ids in a
/// history follows, whatever happens between the two calls, since the
/// counter never decreases.
pub proof fn lemma_next_ids_distinct(
    g0: MsgIdGen,
    g1: MsgIdGen,
    g2: MsgIdGen,
    g3: MsgIdGen,
    id_a: u64,
    id_b: u64,
)
    requires
        next_id_step(g0, g1, id_a),
        g1.counter <= g2.counter,
        next_id_step(g2, g3, id_b),
    ensures
        id_a < id_b,
        id_a != id_b,
{
}

} // verus!
