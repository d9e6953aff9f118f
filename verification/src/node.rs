//! The capability contract every node behaviour implements: build the
//! state once from the handshake, turn one inbound envelope into the
//! envelopes to send, and (for behaviours that gossip) produce one round
//! of gossip messages.  Behaviours do no transport work of their own, so
//! feeding them envelopes and checking what comes back exercises them
//! completely.

use vstd::prelude::*;

use crate::broadcast::BroadcastNode;
use crate::echo::EchoNode;
use crate::protocol::BroadcastPayload;
use crate::protocol::EchoPayload;
use crate::protocol::Init;
use crate::protocol::Message;
use crate::protocol::NodeError;
use crate::protocol::UniquePayload;
use crate::unique::UniqueNode;

verus! {

/// A node behaviour over payload vocabulary `Payload`, constructed from
/// handshake-time state `S`.
///
/// `ready` is the behaviour's own liveness condition — typically that its
/// message-id counter can still advance (and, for the broadcast variant,
/// that its state is well-formed).  Construction establishes it, and the
/// driving loop may only dispatch to a ready node.
pub trait Node<S, Payload>: Sized {
    /// Whether this node can handle another message.
    spec fn ready(&self) -> bool;

    /// Build the node's state from the handshake; runs exactly once.
    fn from_init(state: S, init: Init) -> (r: Result<Self, NodeError>)
        ensures
            r matches Ok(n) ==> n.ready(),
    ;

    /// Handle one inbound envelope and return the envelopes to send.
    fn step(&mut self, input: Message<Payload>) -> (r: Result<Vec<Message<Payload>>, NodeError>)
        requires
            old(self).ready(),
    ;

    /// Produce one round of gossip messages; a behaviour without the
    /// gossip capability returns none.
    fn gossip(&mut self) -> (r: Result<Vec<Message<Payload>>, NodeError>)
        requires
            old(self).ready(),
    ;
}

impl Node<(), EchoPayload> for EchoNode {
    open spec fn ready(&self) -> bool {
        self.id < usize::MAX
    }

    fn from_init(state: (), init: Init) -> (r: Result<Self, NodeError>) {
        let _ = state;
        Ok(EchoNode::from_init(init))
    }

    fn step(&mut self, input: Message<EchoPayload>) -> (r: Result<
        Vec<Message<EchoPayload>>,
        NodeError,
    >) {
        EchoNode::step(self, input)
    }

    fn gossip(&mut self) -> (r: Result<Vec<Message<EchoPayload>>, NodeError>) {
        Ok(Vec::new())
    }
}

impl Node<(), UniquePayload> for UniqueNode {
    open spec fn ready(&self) -> bool {
        self.id < usize::MAX - 1
    }

    fn from_init(state: (), init: Init) -> (r: Result<Self, NodeError>) {
        let _ = state;
        Ok(UniqueNode::from_init(init))
    }

    fn step(&mut self, input: Message<UniquePayload>) -> (r: Result<
        Vec<Message<UniquePayload>>,
        NodeError,
    >) {
        UniqueNode::step(self, input)
    }

    fn gossip(&mut self) -> (r: Result<Vec<Message<UniquePayload>>, NodeError>) {
        Ok(Vec::new())
    }
}

impl Node<(), BroadcastPayload> for BroadcastNode {
    open spec fn ready(&self) -> bool {
        self.wf() && self.id < usize::MAX
    }

    fn from_init(state: (), init: Init) -> (r: Result<Self, NodeError>) {
        let _ = state;
        Ok(BroadcastNode::from_init(init))
    }

    fn step(&mut self, input: Message<BroadcastPayload>) -> (r: Result<
        Vec<Message<BroadcastPayload>>,
        NodeError,
    >) {
        BroadcastNode::step(self, input)
    }

    fn gossip(&mut self) -> (r: Result<Vec<Message<BroadcastPayload>>, NodeError>) {
        BroadcastNode::gossip(self)
    }
}

} // verus!
