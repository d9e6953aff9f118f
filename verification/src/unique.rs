//! The unique-id behaviour: every `Generate` request is answered with an
//! identifier no other node and no earlier reply of this node can have
//! produced — the node's own name joined with a per-node counter value.

use vstd::prelude::*;
use vstd::string::StringExecFns;

use crate::digits::dec_digits;
use crate::digits::dec_string;
use crate::protocol::is_reply_to;
use crate::protocol::Body;
use crate::protocol::Init;
use crate::protocol::Message;
use crate::protocol::NodeError;
use crate::protocol::UniquePayload;

verus! {

/// The identifier a node named `node` hands out at counter value `c`:
/// the node name, a dash, and `c` in decimal.
pub open spec fn guid_chars(node: Seq<char>, c: nat) -> Seq<char> {
    node + seq!['-'] + dec_digits(c)
}

/// The state of one unique-id node: its name and the next message id.
pub struct UniqueNode {
    /// This node's identifier from the handshake.
    pub node: String,
    /// The next message id this node will stamp on a reply.
    pub id: usize,
}

impl UniqueNode {
    /// Build the node from the handshake; the message-id counter starts
    /// at 1 (the runtime itself used id 0 for the handshake reply).
    pub fn from_init(init: Init) -> (n: UniqueNode)
        ensures
            n.node == init.node_id,
            n.id == 1,
    {
        UniqueNode { node: init.node_id, id: 1 }
    }

    /// Handle one inbound envelope.  A `Generate` is answered with a
    /// `GenerateOk` whose identifier joins this node's name and the
    /// counter, which makes it unique across the cluster: names are
    /// distinct between nodes and the counter never repeats on one node.
    /// The counter advances by two on `Generate` — once stamping the
    /// reply's message id and once more after sending — so the
    /// identifier embeds the value between the two; an inbound
    /// `GenerateOk` is absorbed, advancing the counter once.
    pub fn step(&mut self, input: Message<UniquePayload>) -> (r: Result<
        Vec<Message<UniquePayload>>,
        NodeError,
    >)
        requires
            old(self).id < usize::MAX - 1,
        ensures
            final(self).node == old(self).node,
            match input.body.payload {
                UniquePayload::Generate => {
                    &&& r matches Ok(out)
                    &&& out@.len() == 1
                    &&& is_reply_to(out@[0], input, old(self).id)
                    &&& out@[0].body.payload matches UniquePayload::GenerateOk { guid }
                        && guid@ == guid_chars(old(self).node@, (old(self).id + 1) as nat)
                    &&& final(self).id == old(self).id + 2
                },
                UniquePayload::GenerateOk { .. } => {
                    &&& r matches Ok(out)
                    &&& out@.len() == 0
                    &&& final(self).id == old(self).id + 1
                },
            },
    {
        let Message { src, dst, body } = input;
        let mid = self.id;
        self.id = self.id + 1;
        match body.payload {
            UniquePayload::Generate => {
                let mut guid = self.node.clone();
                guid.append("-");
                let digits = dec_string(self.id);
                guid.append(digits.as_str());
                proof {
                    reveal_strlit("-");
                    assert(guid@ =~= guid_chars(old(self).node@, (old(self).id + 1) as nat));
                }
                self.id = self.id + 1;
                let mut out: Vec<Message<UniquePayload>> = Vec::new();
                out.push(
                    Message {
                        src: dst,
                        dst: src,
                        body: Body {
                            id: Some(mid),
                            in_reply_to: body.id,
                            payload: UniquePayload::GenerateOk { guid },
                        },
                    },
                );
                Ok(out)
            },
            UniquePayload::GenerateOk { .. } => Ok(Vec::new()),
        }
    }
}

} // verus!
