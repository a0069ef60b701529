//! The node's process-wide state and the dispatch core.
//!
//! A [`Node`] bundles the identity and topology set once by the init
//! handshake, the message-id generator, the RPC correlator, and the
//! table of payload kinds with a registered handler. [`Node::route`]
//! classifies each inbound envelope — reply, init handshake, handled
//! request, or unhandled request — and either resolves it against the
//! correlator, answers it itself, or hands it out for a handler to run.
//!
//! The core serializes each individual state operation (an id draw, a
//! correlator insert or removal) but never a whole handler execution;
//! handlers run as independent executions that come back to this state
//! one operation at a time.

use vstd::prelude::*;

use crate::correlator::{complete_step, ids_below, CallState, CompleteOutcome, Correlator};
use crate::envelope::{bytes_eq, copy_bytes, Body, Message, NodeId, Payload};
use crate::errors::ErrorCode;
use crate::idgen::{next_id_step, MsgIdGen};

verus! {

/// Failures of the set-once identity state.
#[derive(Clone, Copy, Debug, PartialEq, Eq, Structural)]
pub enum StateError {
    /// The init handshake already happened; identity cannot change.
    AlreadyInitialized,
    /// No init handshake yet; identity is not available.
    NotInitialized,
}

/// What `route` decided for one inbound envelope.
#[derive(Debug, Clone, PartialEq, Eq)]
pub enum RouteOutcome {
    /// The envelope was a reply; it was handed to the correlator, which
    /// reports whether it fulfilled a pending call.
    ReplyDelivered(CompleteOutcome),
    /// The core answered the request itself; send this envelope.
    Reply(Message),
    /// The request's kind has a registered handler; run that handler on
    /// this envelope.
    Deliver(Message),
}

/// The shape every core-built reply has: source and destination
/// swapped, no `msg_id` of its own, and `in_reply_to` echoing the
/// request's `msg_id`.
pub open spec fn core_reply_shape(request: Message, reply: Message) -> bool {
    &&& reply.src@ == request.dest@
    &&& reply.dest@ == request.src@
    &&& reply.body.msg_id is None
    &&& reply.body.in_reply_to == request.body.msg_id
}

/// An error reply carrying the given taxonomy entry's code and
/// canonical text.
pub open spec fn is_error_payload(p: Payload, e: ErrorCode) -> bool {
    &&& p matches Payload::Error { code, text }
    &&& code == e.spec_code()
    &&& text@ == e.spec_text()
}

/// One node's process-wide state.
pub struct Node {
    /// This node's own id; `None` until the init handshake.
    pub id: Option<NodeId>,
    /// The ids of every node in the cluster, as the init handshake
    /// announced them; set once, read-only afterwards.
    pub peers: Vec<NodeId>,
    /// Source of ids for outgoing messages.
    pub gen: MsgIdGen,
    /// The outstanding RPC calls.
    pub corr: Correlator,
    /// The wire names of the payload kinds a workload handler is
    /// registered for. The union of kinds is open: any name can be
    /// registered, the core's own vocabulary or one it has never seen.
    pub handlers: Vec<Vec<u8>>,
}

/// The transition one `route` call makes, relating the node states
/// before and after to the inbound envelope and the outcome.
pub open spec fn route_step(pre: Node, post: Node, input: Message, out: RouteOutcome) -> bool {
    match input.body.in_reply_to {
        Some(r) => {
            // A reply goes to the correlator; nothing else moves.
            &&& out matches RouteOutcome::ReplyDelivered(co) && complete_step(
                pre.corr@,
                post.corr@,
                r,
                input.body,
                co,
            )
            &&& post.id == pre.id
            &&& post.peers == pre.peers
            &&& post.gen == pre.gen
            &&& post.handlers == pre.handlers
        },
        None => match input.body.payload {
            Payload::Init { node_id, node_ids } => {
                // The core handles the handshake itself.
                &&& if pre.id is None {
                    &&& post.id == Some(node_id)
                    &&& post.peers == node_ids
                    &&& out matches RouteOutcome::Reply(m) && core_reply_shape(input, m)
                        && m.body.payload == Payload::InitOk
                } else {
                    &&& post.id == pre.id
                    &&& post.peers == pre.peers
                    &&& out matches RouteOutcome::Reply(m) && core_reply_shape(input, m)
                        && is_error_payload(m.body.payload, ErrorCode::Malformed)
                }
                &&& post.gen == pre.gen
                &&& post.corr@ == pre.corr@
                &&& post.handlers == pre.handlers
            },
            _ => {
                // Any other request is forwarded unexamined to its
                // registered handler, or refused as not supported.
                &&& post == pre
                &&& if pre.spec_kind_registered(input.body.payload.spec_kind_name()) {
                    out matches RouteOutcome::Deliver(m) && m == input
                } else {
                    out matches RouteOutcome::Reply(m) && core_reply_shape(input, m)
                        && is_error_payload(m.body.payload, ErrorCode::NotSupported)
                }
            },
        },
    }
}

/// Builds the error reply owed to `request` for the taxonomy entry
/// `e`: the conversion the dispatch boundary applies when a handler
/// fails. A failed handler's request is answered with `Crashed` — or
/// the nearest matching entry the failure carries — rather than
/// crashing the process; the same builder serves any workload that
/// must refuse a request.
pub fn error_reply(request: &Message, e: ErrorCode) -> (r: Message)
    ensures
        core_reply_shape(*request, r),
        is_error_payload(r.body.payload, e),
{
    Message {
        src: copy_bytes(&request.dest),
        dest: copy_bytes(&request.src),
        body: Body {
            msg_id: None,
            in_reply_to: request.body.msg_id,
            payload: Payload::Error { code: e.code(), text: e.text() },
        },
    }
}

/// Every request that `route` answers is answered with exactly one
/// envelope, and that envelope's `in_reply_to` equals the request's
/// `msg_id`: one `route` call yields one outcome, and every reply
/// envelope in it correlates back to the request, whatever payload it
/// carries. A workload handler's replies carry the same guarantee
/// through [`crate::envelope::reply_to`] and the echo node's own
/// contracts.
pub proof fn lemma_route_reply_correlates(
    pre: Node,
    post: Node,
    input: Message,
    out: RouteOutcome,
)
    requires
        route_step(pre, post, input, out),
    ensures
        out matches RouteOutcome::Reply(m) ==> m.body.in_reply_to == input.body.msg_id,
{
}

impl Node {
    /// Whether a handler is registered under the kind name `name`.
    pub open spec fn spec_kind_registered(self, name: Seq<u8>) -> bool {
        exists|j: int| 0 <= j < self.handlers@.len() && self.handlers@[j]@ == name
    }

    /// The node's internal invariant: every outstanding call's id was
    /// drawn from the generator, so it lies below the counter and a
    /// fresh id can never collide with a pending call.
    pub open spec fn wf(self) -> bool {
        ids_below(self.corr@, self.gen.counter)
    }

    /// Whether the init handshake has happened.
    pub open spec fn spec_initialized(self) -> bool {
        self.id is Some
    }

    /// A fresh, uninitialized node with no handlers registered and no
    /// outstanding calls.
    pub fn new() -> (r: Node)
        ensures
            r.wf(),
            !r.spec_initialized(),
            r.peers@.len() == 0,
            r.gen.counter == 0,
            r.corr@ == Map::<u64, CallState>::empty(),
            r.handlers@.len() == 0,
    {
        Node {
            id: None,
            peers: Vec::new(),
            gen: MsgIdGen::new(),
            corr: Correlator::new(),
            handlers: Vec::new(),
        }
    }

    /// Sets the node's identity and topology, exactly once. Succeeds
    /// if and only if no init handshake has happened yet; afterwards
    /// both values are read-only for the process lifetime.
    pub fn initialize(&mut self, node_id: NodeId, peers: Vec<NodeId>) -> (r: Result<
        (),
        StateError,
    >)
        ensures
            match r {
                Ok(()) => {
                    &&& !old(self).spec_initialized()
                    &&& final(self).id == Some(node_id)
                    &&& final(self).peers == peers
                },
                Err(e) => {
                    &&& e == StateError::AlreadyInitialized
                    &&& old(self).spec_initialized()
                    &&& *final(self) == *old(self)
                },
            },
            final(self).gen == old(self).gen,
            final(self).corr@ == old(self).corr@,
            final(self).handlers == old(self).handlers,
    {
        if self.id.is_some() {
            Err(StateError::AlreadyInitialized)
        } else {
            self.id = Some(node_id);
            self.peers = peers;
            Ok(())
        }
    }

    /// This node's own id. Fails if and only if the init handshake has
    /// not happened yet.
    pub fn current_id(&self) -> (r: Result<&NodeId, StateError>)
        ensures
            match r {
                Ok(id) => self.id == Some(*id),
                Err(e) => e == StateError::NotInitialized && !self.spec_initialized(),
            },
    {
        match &self.id {
            Some(id) => Ok(id),
            None => Err(StateError::NotInitialized),
        }
    }

    /// The ids of every node in the cluster. Fails if and only if the
    /// init handshake has not happened yet.
    pub fn peer_ids(&self) -> (r: Result<&Vec<NodeId>, StateError>)
        ensures
            match r {
                Ok(p) => self.spec_initialized() && *p == self.peers,
                Err(e) => e == StateError::NotInitialized && !self.spec_initialized(),
            },
    {
        if self.id.is_some() {
            Ok(&self.peers)
        } else {
            Err(StateError::NotInitialized)
        }
    }

    /// Registers a handler for one payload kind, by its wire name:
    /// requests of that kind are from now on routed out for the
    /// workload to handle. The name may be any byte string — the
    /// payload union is open-ended, and workloads extend it here
    /// without touching the core.
    pub fn register(&mut self, kind: Vec<u8>)
        ensures
            final(self).handlers@ == old(self).handlers@.push(kind),
            final(self).id == old(self).id,
            final(self).peers == old(self).peers,
            final(self).gen == old(self).gen,
            final(self).corr@ == old(self).corr@,
    {
        self.handlers.push(kind);
    }

    /// Whether a handler is registered under the kind name `name`.
    pub fn kind_registered(&self, name: &Vec<u8>) -> (r: bool)
        ensures
            r == self.spec_kind_registered(name@),
    {
        let mut i: usize = 0;
        while i < self.handlers.len()
            invariant
                i <= self.handlers@.len(),
                forall|j: int| 0 <= j < i ==> self.handlers@[j]@ != name@,
            decreases self.handlers@.len() - i,
        {
            if bytes_eq(&self.handlers[i], name) {
                return true;
            }
            i = i + 1;
        }
        false
    }

    /// Draws the next outgoing message id.
    pub fn next_msg_id(&mut self) -> (id: u64)
        requires
            old(self).gen.counter < u64::MAX,
        ensures
            next_id_step(old(self).gen, final(self).gen, id),
            old(self).wf() ==> final(self).wf(),
            final(self).id == old(self).id,
            final(self).peers == old(self).peers,
            final(self).corr@ == old(self).corr@,
            final(self).handlers == old(self).handlers,
    {
        self.gen.next()
    }

    /// Issues an RPC call at clock reading `now`: draws a fresh id,
    /// records the pending call — with deadline `now + timeout` if a
    /// timeout was given — and returns the id to embed as `msg_id` in
    /// the outgoing request and to later hand to the correlator's
    /// `try_await`.
    pub fn issue_rpc(&mut self, now: u64, timeout: Option<u64>) -> (id: u64)
        requires
            old(self).wf(),
            old(self).gen.counter < u64::MAX,
            timeout matches Some(t) ==> now + t <= u64::MAX,
        ensures
            final(self).wf(),
            next_id_step(old(self).gen, final(self).gen, id),
            !old(self).corr@.contains_key(id),
            final(self).corr@ == old(self).corr@.insert(
                id,
                CallState::Waiting {
                    issued_at: now,
                    deadline: match timeout {
                        Some(t) => Some((now + t) as u64),
                        None => None,
                    },
                },
            ),
            final(self).id == old(self).id,
            final(self).peers == old(self).peers,
            final(self).handlers == old(self).handlers,
    {
        let deadline = match timeout {
            Some(t) => Some(now + t),
            None => None,
        };
        self.corr.issue(&mut self.gen, now, deadline)
    }

    /// Routes one inbound envelope. A reply is matched against the
    /// correlator; an `init` request runs the handshake and is answered
    /// with `init_ok` (or an error if the node is already initialized);
    /// any other request goes out to its registered handler, or is
    /// answered with a `not supported` error if no handler is
    /// registered for its kind.
    pub fn route(&mut self, input: Message) -> (out: RouteOutcome)
        ensures
            route_step(*old(self), *final(self), input, out),
            old(self).wf() ==> final(self).wf(),
    {
        let Message { src, dest, body } = input;
        let Body { msg_id, in_reply_to, payload } = body;
        match in_reply_to {
            Some(r) => {
                let co = self.corr.complete(r, Body { msg_id, in_reply_to: Some(r), payload });
                RouteOutcome::ReplyDelivered(co)
            },
            None => {
                match payload {
                    Payload::Init { node_id, node_ids } => {
                        let reply_payload = match self.initialize(node_id, node_ids) {
                            Ok(()) => Payload::InitOk,
                            Err(_) => {
                                let e = ErrorCode::Malformed;
                                Payload::Error { code: e.code(), text: e.text() }
                            },
                        };
                        RouteOutcome::Reply(Message {
                            src: dest,
                            dest: src,
                            body: Body { msg_id: None, in_reply_to: msg_id, payload: reply_payload },
                        })
                    },
                    _ => {
                        let name = payload.kind_name();
                        if self.kind_registered(&name) {
                            RouteOutcome::Deliver(Message {
                                src,
                                dest,
                                body: Body { msg_id, in_reply_to: None, payload },
                            })
                        } else {
                            let e = ErrorCode::NotSupported;
                            RouteOutcome::Reply(Message {
                                src: dest,
                                dest: src,
                                body: Body {
                                    msg_id: None,
                                    in_reply_to: msg_id,
                                    payload: Payload::Error { code: e.code(), text: e.text() },
                                },
                            })
                        }
                    },
                }
            },
        }
    }
}

} // verus!
