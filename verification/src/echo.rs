//! The echo behaviour: a stateless one-line transformation, answering
//! every `Echo` with an `EchoOk` carrying the same text.

use vstd::prelude::*;

use crate::protocol::is_reply_to;
use crate::protocol::Body;
use crate::protocol::EchoPayload;
use crate::protocol::Init;
use crate::protocol::Message;
use crate::protocol::NodeError;

verus! {

/// The state of one echo node: nothing but the next message id.
pub struct EchoNode {
    /// The next message id this node will stamp on a reply.
    pub id: usize,
}

impl EchoNode {
    /// Build the node from the handshake; the message-id counter starts
    /// at 1 (the runtime itself used id 0 for the handshake reply).
    pub fn from_init(init: Init) -> (n: EchoNode)
        ensures
            n.id == 1,
    {
        let _ = init;
        EchoNode { id: 1 }
    }

    /// Handle one inbound envelope: an `Echo` is answered with an
    /// `EchoOk` carrying the identical text, and an inbound `EchoOk` is
    /// absorbed without output or state change.
    pub fn step(&mut self, input: Message<EchoPayload>) -> (r: Result<
        Vec<Message<EchoPayload>>,
        NodeError,
    >)
        requires
            old(self).id < usize::MAX,
        ensures
            match input.body.payload {
                EchoPayload::Echo { echo } => {
                    &&& r matches Ok(out)
                    &&& out@.len() == 1
                    &&& is_reply_to(out@[0], input, old(self).id)
                    &&& out@[0].body.payload matches EchoPayload::EchoOk { echo: e } && e == echo
                    &&& final(self).id == old(self).id + 1
                },
                EchoPayload::EchoOk { .. } => {
                    &&& r matches Ok(out)
                    &&& out@.len() == 0
                    &&& *final(self) == *old(self)
                },
            },
    {
        let Message { src, dst, body } = input;
        match body.payload {
            EchoPayload::Echo { echo } => {
                let mid = self.id;
                self.id = self.id + 1;
                let mut out: Vec<Message<EchoPayload>> = Vec::new();
                out.push(
                    Message {
                        src: dst,
                        dst: src,
                        body: Body {
                            id: Some(mid),
                            in_reply_to: body.id,
                            payload: EchoPayload::EchoOk { echo },
                        },
                    },
                );
                Ok(out)
            },
            EchoPayload::EchoOk { .. } => Ok(Vec::new()),
        }
    }
}

} // verus!
