//! The wire envelope: a routed message with a source, a destination and a
//! body, together with reply derivation.  One envelope travels per line of
//! the transport; turning envelopes into lines and back is the transport
//! edge's job, while everything that decides what an envelope means lives
//! here and in the behaviour modules.

use vstd::prelude::*;

verus! {

/// A single routed message.  `Payload` is the behaviour-specific part of
/// the body; the runtime and the behaviours instantiate it with one of the
/// payload enums below.
#[derive(Debug, Clone)]
pub struct Message<Payload> {
    pub src: String,
    pub dst: String,
    pub body: Body<Payload>,
}

/// The body of an envelope: an optional per-sender message id, the id of
/// the request this message answers (if any), and the tagged payload.
#[derive(Debug, Clone)]
pub struct Body<Payload> {
    pub id: Option<usize>,
    pub in_reply_to: Option<usize>,
    pub payload: Payload,
}

/// Handshake-time cluster description: this node's identity and the
/// ordered list of all cluster members.
#[derive(Debug, Clone)]
pub struct Init {
    pub node_id: String,
    pub node_ids: Vec<String>,
}

/// The payload vocabulary of the handshake: the very first inbound message
/// must carry `Init`, and the runtime answers it with `InitOk`.
#[derive(Debug, Clone)]
pub enum InitPayload {
    Init(Init),
    InitOk,
}

/// The payload vocabulary of the echo behaviour.
#[derive(Debug, Clone)]
pub enum EchoPayload {
    Echo { echo: String },
    EchoOk { echo: String },
}

/// The payload vocabulary of the unique-id behaviour.
#[derive(Debug, Clone)]
pub enum UniquePayload {
    Generate,
    GenerateOk { guid: String },
}

/// The payload vocabulary of the broadcast behaviour.  `Gossip` is
/// fire-and-forget: no reply payload is defined for it.
#[derive(Debug, Clone)]
pub enum BroadcastPayload {
    Broadcast { message: u64 },
    BroadcastOk,
    Read,
    ReadOk { messages: Vec<u64> },
    Topology { topology: Vec<(String, Vec<String>)> },
    TopologyOk,
    Gossip { seen: Vec<u64> },
}

/// Everything that can go wrong inside a behaviour or the runtime.  The
/// caller decides which of these are fatal: a broken handshake or a
/// topology that does not mention this node desynchronise node and
/// harness, while gossip from an unknown peer is recoverable.
#[derive(Debug, Clone, PartialEq, Eq)]
pub enum NodeError {
    /// The first inbound message did not carry an `Init` payload.
    NotInit,
    /// A gossip message arrived from, or was addressed to, a node that is
    /// not a cluster member.
    UnknownPeer,
    /// The topology assignment has no entry for this node.
    NoTopologyForSelf,
}

/// What every reply derived from `original` looks like: source and
/// destination swapped, stamped with the sender's message id `mid`, and
/// answering `original`'s id.
pub open spec fn is_reply_to<Payload>(
    r: Message<Payload>,
    original: Message<Payload>,
    mid: usize,
) -> bool {
    &&& r.src == original.dst
    &&& r.dst == original.src
    &&& r.body.id == Some(mid)
    &&& r.body.in_reply_to == original.body.id
}

impl<Payload> Message<Payload> {
    /// Derive the reply to this message: source and destination swap, the
    /// reply answers this message's id, and the caller's message-id
    /// counter stamps the reply and advances by one.
    pub fn into_reply(self, id: &mut usize) -> (r: Message<Payload>)
        requires
            *old(id) < usize::MAX,
        ensures
            r.src == self.dst,
            r.dst == self.src,
            r.body.id == Some(*old(id)),
            r.body.in_reply_to == self.body.id,
            r.body.payload == self.body.payload,
            *final(id) == *old(id) + 1,
    {
        let mid = *id;
        *id = *id + 1;
        Message {
            src: self.dst,
            dst: self.src,
            body: Body { id: Some(mid), in_reply_to: self.body.id, payload: self.body.payload },
        }
    }
}

} // verus!
