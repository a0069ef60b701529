//! The envelope model: the `src`/`dest`/`body` wrapper of one protocol
//! message, the correlation fields `msg_id` and `in_reply_to`, and the
//! tagged payload carried inside the body.
//!
//! Node identifiers and message texts travel on the wire as JSON
//! strings; the model holds them as their UTF-8 bytes, so that the
//! codec and the contracts can speak of them as plain byte sequences.
//!
//! A body is classified as a *reply* exactly when `in_reply_to` is set;
//! otherwise it is a *request* eligible for dispatch.

use vstd::prelude::*;
use vstd::string::StrSliceExecFns;
use vstd::string::StringSliceAdditionalSpecFns;

verus! {

/// An opaque node identifier, as the UTF-8 bytes of its name. Assigned
/// by the harness at init time; unique across the cluster.
pub type NodeId = Vec<u8>;

/// The discriminant tag of a payload, as written in the wire `type`
/// field.
#[derive(Clone, Copy, Debug, PartialEq, Eq, Structural)]
pub enum Kind {
    Init,
    InitOk,
    Error,
    Echo,
    EchoOk,
    /// Any kind outside the core's own vocabulary: the open end of the
    /// payload union, dispatched to whatever handler registered its
    /// name.
    Other,
}

/// The tagged content of a message. The runtime core itself acts only
/// on `Init`, `InitOk` and `Error`; the remaining kinds belong to
/// workload handlers registered with the dispatch core.
#[derive(Debug, Clone, PartialEq, Eq)]
pub enum Payload {
    /// The harness's opening handshake: this node's id and the ids of
    /// every node in the cluster.
    Init { node_id: NodeId, node_ids: Vec<NodeId> },
    /// Acknowledges an `Init`.
    InitOk,
    /// Signals a failure, with a code from the error taxonomy and a
    /// human-readable text.
    Error { code: u64, text: Vec<u8> },
    /// The echo workload's request: return `echo` unchanged.
    Echo { echo: Vec<u8> },
    /// The echo workload's reply.
    EchoOk { echo: Vec<u8> },
    /// A payload of a kind the core does not know: the open end of the
    /// union. It carries the kind's name as written in the wire `type`
    /// field; its other members are opaque to the core, which forwards
    /// the envelope to the handler registered for this name.
    Other { kind: Vec<u8> },
}

impl Payload {
    /// The discriminant tag of this payload.
    pub open spec fn spec_kind(self) -> Kind {
        match self {
            Payload::Init { .. } => Kind::Init,
            Payload::InitOk => Kind::InitOk,
            Payload::Error { .. } => Kind::Error,
            Payload::Echo { .. } => Kind::Echo,
            Payload::EchoOk { .. } => Kind::EchoOk,
            Payload::Other { .. } => Kind::Other,
        }
    }

    /// The wire name of this payload's kind: the UTF-8 bytes the
    /// `type` field carries.
    pub open spec fn spec_kind_name(self) -> Seq<u8> {
        match self {
            Payload::Init { .. } => ("init").spec_bytes(),
            Payload::InitOk => ("init_ok").spec_bytes(),
            Payload::Error { .. } => ("error").spec_bytes(),
            Payload::Echo { .. } => ("echo").spec_bytes(),
            Payload::EchoOk { .. } => ("echo_ok").spec_bytes(),
            Payload::Other { kind } => kind@,
        }
    }

    /// The wire name of this payload's kind.
    pub fn kind_name(&self) -> (r: Vec<u8>)
        ensures
            r@ == self.spec_kind_name(),
    {
        match self {
            Payload::Init { .. } => "init".as_bytes_vec(),
            Payload::InitOk => "init_ok".as_bytes_vec(),
            Payload::Error { .. } => "error".as_bytes_vec(),
            Payload::Echo { .. } => "echo".as_bytes_vec(),
            Payload::EchoOk { .. } => "echo_ok".as_bytes_vec(),
            Payload::Other { kind } => copy_bytes(kind),
        }
    }

    /// The discriminant tag of this payload.
    pub fn kind(&self) -> (k: Kind)
        ensures
            k == self.spec_kind(),
    {
        match self {
            Payload::Init { .. } => Kind::Init,
            Payload::InitOk => Kind::InitOk,
            Payload::Error { .. } => Kind::Error,
            Payload::Echo { .. } => Kind::Echo,
            Payload::EchoOk { .. } => Kind::EchoOk,
            Payload::Other { .. } => Kind::Other,
        }
    }
}

/// The correlation-bearing inner structure of a message. `msg_id` is
/// present when the sender wants correlatable replies; `in_reply_to` is
/// present if and only if this body replies to that earlier `msg_id`.
#[derive(Debug, Clone, PartialEq, Eq)]
pub struct Body {
    pub msg_id: Option<u64>,
    pub in_reply_to: Option<u64>,
    pub payload: Payload,
}

impl Body {
    /// A body is a reply exactly when `in_reply_to` is set.
    pub open spec fn spec_is_reply(self) -> bool {
        self.in_reply_to is Some
    }

    /// Whether this body is a reply (and so goes to the RPC correlator
    /// rather than to dispatch).
    pub fn is_reply(&self) -> (r: bool)
        ensures
            r == self.spec_is_reply(),
    {
        match self.in_reply_to {
            Some(_) => true,
            None => false,
        }
    }
}

/// One protocol message: sender, addressee, and body. Immutable once
/// constructed; a node only ever owns envelopes it has just parsed or
/// is about to send.
#[derive(Debug, Clone, PartialEq, Eq)]
pub struct Message {
    pub src: NodeId,
    pub dest: NodeId,
    pub body: Body,
}

/// The mathematical value of a payload: each byte-string field as its
/// byte sequence.
pub ghost enum PayloadView {
    Init { node_id: Seq<u8>, node_ids: Seq<Seq<u8>> },
    InitOk,
    Error { code: u64, text: Seq<u8> },
    Echo { echo: Seq<u8> },
    EchoOk { echo: Seq<u8> },
    Other { kind: Seq<u8> },
}

/// The mathematical value of a body.
pub ghost struct BodyView {
    pub msg_id: Option<u64>,
    pub in_reply_to: Option<u64>,
    pub payload: PayloadView,
}

/// The mathematical value of a message.
pub ghost struct MessageView {
    pub src: Seq<u8>,
    pub dest: Seq<u8>,
    pub body: BodyView,
}

impl View for Payload {
    type V = PayloadView;

    open spec fn view(&self) -> PayloadView {
        match self {
            Payload::Init { node_id, node_ids } => PayloadView::Init {
                node_id: node_id@,
                node_ids: node_ids.deep_view(),
            },
            Payload::InitOk => PayloadView::InitOk,
            Payload::Error { code, text } => PayloadView::Error { code: *code, text: text@ },
            Payload::Echo { echo } => PayloadView::Echo { echo: echo@ },
            Payload::EchoOk { echo } => PayloadView::EchoOk { echo: echo@ },
            Payload::Other { kind } => PayloadView::Other { kind: kind@ },
        }
    }
}

impl View for Body {
    type V = BodyView;

    open spec fn view(&self) -> BodyView {
        BodyView { msg_id: self.msg_id, in_reply_to: self.in_reply_to, payload: self.payload@ }
    }
}

impl View for Message {
    type V = MessageView;

    open spec fn view(&self) -> MessageView {
        MessageView { src: self.src@, dest: self.dest@, body: self.body@ }
    }
}

/// Whether two byte strings hold the same bytes.
pub fn bytes_eq(a: &Vec<u8>, b: &Vec<u8>) -> (r: bool)
    ensures
        r <==> a@ == b@,
{
    if a.len() != b.len() {
        proof {
            if a@ == b@ {
                assert(a@.len() == b@.len());
            }
        }
        return false;
    }
    let mut i: usize = 0;
    while i < a.len()
        invariant
            i <= a@.len(),
            a@.len() == b@.len(),
            forall|j: int| 0 <= j < i ==> a@[j] == b@[j],
        decreases a@.len() - i,
    {
        if a[i] != b[i] {
            proof {
                if a@ == b@ {
                    assert(a@[i as int] == b@[i as int]);
                }
            }
            return false;
        }
        i = i + 1;
    }
    proof {
        assert(a@ =~= b@);
    }
    true
}

/// An exact copy of a byte string.
pub fn copy_bytes(v: &Vec<u8>) -> (r: Vec<u8>)
    ensures
        r@ == v@,
{
    vstd::slice::slice_to_vec(v.as_slice())
}

/// Builds the reply envelope owed to `request`: source and destination
/// are swapped, `in_reply_to` echoes the request's `msg_id`, and the
/// body carries the given `msg_id` and `payload`.
pub fn reply_to(request: &Message, msg_id: Option<u64>, payload: Payload) -> (r: Message)
    ensures
        r.src@ == request.dest@,
        r.dest@ == request.src@,
        r.body.msg_id == msg_id,
        r.body.in_reply_to == request.body.msg_id,
        r.body.payload == payload,
{
    Message {
        src: copy_bytes(&request.dest),
        dest: copy_bytes(&request.src),
        body: Body { msg_id, in_reply_to: request.body.msg_id, payload },
    }
}

/// Every reply built for a request whose `msg_id` is set correlates
/// back to that request: its `in_reply_to` equals the request's
/// `msg_id`, whatever payload the handler returned.
pub proof fn lemma_reply_correlates(request: Message, msg_id: Option<u64>, payload: Payload, r: Message)
    requires
        call_ensures(reply_to, (&request, msg_id, payload), r),
        request.body.msg_id is Some,
    ensures
        r.body.in_reply_to == request.body.msg_id,
{
}

} // verus!
