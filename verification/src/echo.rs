//! The echo workload: a node that answers every `echo` request with an
//! `echo_ok` reply carrying the same text back.
//!
//! This is the smallest complete workload built on the envelope model,
//! and the shape every other workload follows: look at the payload,
//! build the owed reply with source and destination swapped and
//! `in_reply_to` echoing the request's `msg_id`, and stamp the reply
//! with the next value of the node's own message-id sequence.

use vstd::prelude::*;

use crate::envelope::{Body, Message, NodeId, Payload};

verus! {

/// A free-standing echo node: its identity and its outgoing message-id
/// sequence.
pub struct EchoNode {
    /// This node's id, set by the init handshake.
    pub id: NodeId,
    /// The next outgoing message id.
    pub msg_id_seq: u64,
}

/// The reply owed to an `echo` request: source and destination
/// swapped, `in_reply_to` echoing the request's `msg_id`, the reply
/// stamped with the sender's message-id `seq`, and the same text
/// returned in an `echo_ok` payload.
pub open spec fn is_echo_reply(input: Message, reply: Message, seq: u64) -> bool {
    &&& reply.src@ == input.dest@
    &&& reply.dest@ == input.src@
    &&& reply.body.msg_id == Some(seq)
    &&& reply.body.in_reply_to == input.body.msg_id
    &&& match (input.body.payload, reply.body.payload) {
        (Payload::Echo { echo }, Payload::EchoOk { echo: back }) => back@ == echo@,
        _ => false,
    }
}

impl EchoNode {
    /// A fresh echo node with an empty id and the sequence at 0.
    pub fn new() -> (r: EchoNode)
        ensures
            r.id@.len() == 0,
            r.msg_id_seq == 0,
    {
        EchoNode { id: Vec::new(), msg_id_seq: 0 }
    }

    /// Handles one inbound envelope of the echo workload proper. A
    /// reply — any body whose `in_reply_to` is set — is never answered:
    /// it belongs to the RPC correlator, and a handler ignores it.
    /// Among requests, an `echo` is answered with `echo_ok` and
    /// advances the message-id sequence; every other payload produces
    /// no output and changes nothing.
    pub fn step(&mut self, input: Message) -> (out: Option<Message>)
        requires
            old(self).msg_id_seq < u64::MAX,
        ensures
            final(self).id@ == old(self).id@,
            input.body.spec_is_reply() ==> {
                &&& final(self).msg_id_seq == old(self).msg_id_seq
                &&& out is None
            },
            !input.body.spec_is_reply() ==> match input.body.payload {
                Payload::Echo { .. } => {
                    &&& final(self).msg_id_seq == old(self).msg_id_seq + 1
                    &&& out matches Some(m) && is_echo_reply(input, m, old(self).msg_id_seq)
                },
                _ => {
                    &&& final(self).msg_id_seq == old(self).msg_id_seq
                    &&& out is None
                },
            },
    {
        let Message { src, dest, body } = input;
        let Body { msg_id, in_reply_to, payload } = body;
        if in_reply_to.is_some() {
            return None;
        }
        match payload {
            Payload::Echo { echo } => {
                let reply = Message {
                    src: dest,
                    dest: src,
                    body: Body {
                        msg_id: Some(self.msg_id_seq),
                        in_reply_to: msg_id,
                        payload: Payload::EchoOk { echo },
                    },
                };
                self.msg_id_seq = self.msg_id_seq + 1;
                Some(reply)
            },
            _ => None,
        }
    }

    /// Handles one inbound envelope of a free-standing echo node,
    /// handshake included. A reply — any body whose `in_reply_to` is
    /// set — is never dispatched by payload: it belongs to the RPC
    /// correlator, and here it is ignored unanswered. Among requests,
    /// `init` records this node's id and is acknowledged with
    /// `init_ok`; `echo` is answered as in `step`; every other payload
    /// produces no output and changes nothing.
    pub fn handle(&mut self, input: Message) -> (out: Option<Message>)
        requires
            old(self).msg_id_seq < u64::MAX,
        ensures
            input.body.spec_is_reply() ==> {
                &&& final(self).id@ == old(self).id@
                &&& final(self).msg_id_seq == old(self).msg_id_seq
                &&& out is None
            },
            !input.body.spec_is_reply() ==> match input.body.payload {
                Payload::Init { node_id, .. } => {
                    &&& final(self).id@ == node_id@
                    &&& final(self).msg_id_seq == old(self).msg_id_seq
                    &&& out matches Some(m) && {
                        &&& m.src@ == input.dest@
                        &&& m.dest@ == input.src@
                        &&& m.body.msg_id is None
                        &&& m.body.in_reply_to == input.body.msg_id
                        &&& m.body.payload == Payload::InitOk
                    }
                },
                Payload::Echo { .. } => {
                    &&& final(self).id@ == old(self).id@
                    &&& final(self).msg_id_seq == old(self).msg_id_seq + 1
                    &&& out matches Some(m) && is_echo_reply(input, m, old(self).msg_id_seq)
                },
                _ => {
                    &&& final(self).id@ == old(self).id@
                    &&& final(self).msg_id_seq == old(self).msg_id_seq
                    &&& out is None
                },
            },
    {
        let Message { src, dest, body } = input;
        let Body { msg_id, in_reply_to, payload } = body;
        if in_reply_to.is_some() {
            return None;
        }
        match payload {
            Payload::Init { node_id, node_ids: _ } => {
                self.id = node_id;
                Some(Message {
                    src: dest,
                    dest: src,
                    body: Body { msg_id: None, in_reply_to: msg_id, payload: Payload::InitOk },
                })
            },
            Payload::Echo { echo } => {
                let reply = Message {
                    src: dest,
                    dest: src,
                    body: Body {
                        msg_id: Some(self.msg_id_seq),
                        in_reply_to: msg_id,
                        payload: Payload::EchoOk { echo },
                    },
                };
                self.msg_id_seq = self.msg_id_seq + 1;
                Some(reply)
            },
            _ => None,
        }
    }
}

} // verus!
