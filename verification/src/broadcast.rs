//! The gossip-based broadcast behaviour: the one stateful node variant.
//! It accumulates every broadcast value it learns, remembers per peer which
//! values that peer is known to hold, and on each gossip round pushes to
//! every neighbour exactly the values not yet known to be there.  Gossip is
//! fire-and-forget: nothing is acknowledged, and a lost message is repaired
//! by a later round recomputing the difference from current state.

use vstd::prelude::*;

use crate::idset::clone_vals;
use crate::idset::diff_vals;
use crate::idset::no_dup_vals;
use crate::idset::subset_vals;
use crate::idset::insert_val;
use crate::idset::union_into;
use crate::protocol::Body;
use crate::protocol::BroadcastPayload;
use crate::protocol::is_reply_to;
use crate::protocol::Init;
use crate::protocol::Message;
use crate::protocol::NodeError;

verus! {

/// The state of one broadcast node.
///
/// `peers` lists the cluster members from the handshake (duplicates
/// collapsed), and `known` runs parallel to it: `known[i]` is the set of
/// values peer `peers[i]` is believed to hold already — advisory only,
/// used to prune gossip payloads.  `neighborhood` is the subset of the
/// cluster this node gossips with, set once by a topology message.
pub struct BroadcastNode {
    /// This node's identifier from the handshake.
    pub node: String,
    /// The next message id this node will stamp on a reply.
    pub id: usize,
    /// Every value this node has learned, in first-arrival order, no
    /// duplicates.  Grows monotonically; nothing is ever removed.
    pub messages: Vec<u64>,
    /// Cluster membership, with pairwise distinct identifiers.
    pub peers: Vec<String>,
    /// For each entry of `peers`, the values believed delivered there.
    pub known: Vec<Vec<u64>>,
    /// The identifiers this node gossips with; empty until a topology
    /// message arrives, and gossip with an empty neighbourhood is a no-op.
    pub neighborhood: Vec<String>,
}

/// Whether the topology assignment `t` has an entry for the node named
/// `id`.
pub open spec fn has_topology_entry(t: Seq<(String, Vec<String>)>, id: Seq<char>) -> bool {
    exists|i: int| 0 <= i < t.len() && t[i].0@ == id
}

/// The view of one gossip message: where it goes and which values it
/// pushes.
pub open spec fn gossip_view(m: Message<BroadcastPayload>) -> (Seq<char>, Set<u64>) {
    (
        m.dst@,
        match m.body.payload {
            BroadcastPayload::Gossip { seen } => seen@.to_set(),
            _ => Set::empty(),
        },
    )
}

/// The destinations and payload sets of a sequence of gossip messages.
pub open spec fn round_views(out: Seq<Message<BroadcastPayload>>) -> Seq<(Seq<char>, Set<u64>)> {
    out.map_values(|m: Message<BroadcastPayload>| gossip_view(m))
}

/// What one gossip round of node `n` sends, considering the first `upto`
/// neighbourhood entries: for each entry in order, the pruned difference
/// between `n`'s values and what that peer is known to hold — and nothing
/// at all for a peer that is missing nothing.
pub open spec fn round_plan(n: BroadcastNode, upto: int) -> Seq<(Seq<char>, Set<u64>)>
    decreases upto,
{
    if upto <= 0 {
        Seq::empty()
    } else {
        let pre = round_plan(n, upto - 1);
        let d = n.neighborhood@[upto - 1]@;
        let diff = n.msg_set().difference(n.known_set(n.peer_index(d)));
        if n.has_peer(d) && diff != Set::<u64>::empty() {
            pre.push((d, diff))
        } else {
            pre
        }
    }
}

/// The shape every message of a gossip round has: it comes from `n`,
/// carries no message id and answers nothing (gossip is one-way), goes to
/// a neighbourhood member of the cluster, and pushes a non-empty,
/// duplicate-free payload of values `n` holds, none of which the receiver
/// is already known to hold.
pub open spec fn gossip_shape(n: BroadcastNode, m: Message<BroadcastPayload>) -> bool {
    &&& m.src == n.node
    &&& m.body.id is None
    &&& m.body.in_reply_to is None
    &&& exists|i: int| 0 <= i < n.neighborhood@.len() && n.neighborhood@[i]@ == m.dst@
    &&& n.has_peer(m.dst@)
    &&& m.body.payload matches BroadcastPayload::Gossip { seen } && {
        let pi = n.peer_index(m.dst@);
        &&& seen@.no_duplicates()
        &&& seen@.len() > 0
        &&& forall|x: u64|
            seen@.contains(x) ==> n.messages@.contains(x) && !n.known@[pi]@.contains(x)
    }
}

/// Mapping the views of gossip messages commutes with appending one.
proof fn lemma_round_views_push(s: Seq<Message<BroadcastPayload>>, m: Message<BroadcastPayload>)
    ensures
        round_views(s.push(m)) == round_views(s).push(gossip_view(m)),
{
    assert(round_views(s.push(m)) =~= round_views(s).push(gossip_view(m)));
}

/// Whether two node identifiers are the same string.
pub fn same_id(a: &String, b: &String) -> (r: bool)
    ensures
        r == (a@ == b@),
{
    a.eq(b)
}

/// Whether the identifiers in `v` are pairwise distinct.
fn distinct_ids(v: &Vec<String>) -> (b: bool)
    ensures
        b == (forall|i: int, j: int| 0 <= i < j < v@.len() ==> v@[i]@ != v@[j]@),
{
    let mut i: usize = 0;
    while i < v.len()
        invariant
            i <= v@.len(),
            forall|p: int, q: int| 0 <= p < q < i ==> v@[p]@ != v@[q]@,
        decreases v@.len() - i,
    {
        let mut j: usize = 0;
        while j < i
            invariant
                j <= i < v@.len(),
                forall|p: int| 0 <= p < j ==> v@[p]@ != v@[i as int]@,
            decreases i - j,
        {
            if same_id(&v[j], &v[i]) {
                return false;
            }
            j = j + 1;
        }
        i = i + 1;
    }
    true
}

impl BroadcastNode {
    /// The set of values this node has learned.
    pub open spec fn msg_set(self) -> Set<u64> {
        self.messages@.to_set()
    }

    /// Whether `id` names a cluster member.
    pub open spec fn has_peer(self, id: Seq<char>) -> bool {
        exists|i: int| 0 <= i < self.peers@.len() && self.peers@[i]@ == id
    }

    /// The index of the cluster member named `id`; meaningful only when
    /// `has_peer(id)`, and then unique because peer identifiers are
    /// pairwise distinct.
    pub open spec fn peer_index(self, id: Seq<char>) -> int {
        choose|i: int| 0 <= i < self.peers@.len() && self.peers@[i]@ == id
    }

    /// The values peer number `i` is believed to hold.
    pub open spec fn known_set(self, i: int) -> Set<u64> {
        self.known@[i]@.to_set()
    }

    /// Well-formedness: `known` runs parallel to `peers`, identifiers are
    /// pairwise distinct, the value vectors are duplicate-free, and every
    /// peer's known set is a subset of this node's own value set.
    pub open spec fn wf(self) -> bool {
        &&& self.known@.len() == self.peers@.len()
        &&& forall|i: int, j: int|
            0 <= i < j < self.peers@.len() ==> self.peers@[i]@ != self.peers@[j]@
        &&& self.messages@.no_duplicates()
        &&& forall|i: int|
            0 <= i < self.known@.len() ==> (#[trigger] self.known@[i])@.no_duplicates()
        &&& forall|i: int|
            0 <= i < self.known@.len() ==> #[trigger] self.known_set(i) <= self.msg_set()
    }

    /// Check this node's well-formedness at run time, so an unverified
    /// caller can test `wf` before dispatching to the node.
    pub fn invariant_holds(&self) -> (b: bool)
        ensures
            b == self.wf(),
    {
        if self.known.len() != self.peers.len() {
            return false;
        }
        if !distinct_ids(&self.peers) {
            return false;
        }
        if !no_dup_vals(&self.messages) {
            return false;
        }
        let mut i: usize = 0;
        while i < self.known.len()
            invariant
                i <= self.known@.len(),
                self.known@.len() == self.peers@.len(),
                forall|a: int, b: int|
                    0 <= a < b < self.peers@.len() ==> self.peers@[a]@ != self.peers@[b]@,
                self.messages@.no_duplicates(),
                forall|k: int| 0 <= k < i ==> (#[trigger] self.known@[k])@.no_duplicates(),
                forall|k: int| 0 <= k < i ==> #[trigger] self.known_set(k) <= self.msg_set(),
            decreases self.known@.len() - i,
        {
            if !no_dup_vals(&self.known[i]) {
                proof {
                    assert(!(self.known@[i as int])@.no_duplicates());
                }
                return false;
            }
            if !subset_vals(&self.known[i], &self.messages) {
                proof {
                    assert(!(self.known_set(i as int) <= self.msg_set()));
                }
                return false;
            }
            i = i + 1;
        }
        true
    }

    /// Look a cluster member up by identifier.
    fn find_peer(&self, id: &String) -> (r: Option<usize>)
        requires
            self.wf(),
        ensures
            match r {
                Some(i) => self.has_peer(id@) && i == self.peer_index(id@)
                    && 0 <= i < self.peers@.len() && self.peers@[i as int]@ == id@,
                None => !self.has_peer(id@),
            },
    {
        let mut i: usize = 0;
        while i < self.peers.len()
            invariant
                self.wf(),
                i <= self.peers@.len(),
                forall|k: int| 0 <= k < i ==> self.peers@[k]@ != id@,
            decreases self.peers@.len() - i,
        {
            if same_id(&self.peers[i], id) {
                proof {
                    assert(self.has_peer(id@)) by {
                        assert(self.peers@[i as int]@ == id@);
                    }
                    let j = self.peer_index(id@);
                    assert(self.peers@[j]@ == id@);
                    if j != i as int {
                        assert(self.peers@[i as int]@ != self.peers@[j]@);
                    }
                }
                return Some(i);
            }
            i = i + 1;
        }
        None
    }

    /// Build the node from the handshake: no values yet, an empty known
    /// set for each distinct cluster member, no neighbourhood, and the
    /// message-id counter starting at 1 (the runtime itself used id 0 for
    /// the handshake reply).
    pub fn from_init(init: Init) -> (n: BroadcastNode)
        ensures
            n.wf(),
            n.node == init.node_id,
            n.id == 1,
            n.messages@.len() == 0,
            n.neighborhood@.len() == 0,
            forall|i: int| 0 <= i < n.known@.len() ==> (#[trigger] n.known@[i])@.len() == 0,
            forall|i: int|
                0 <= i < init.node_ids@.len() ==> n.has_peer(#[trigger] init.node_ids@[i]@),
            forall|id: Seq<char>|
                #[trigger] n.has_peer(id) ==> exists|i: int|
                    0 <= i < init.node_ids@.len() && init.node_ids@[i]@ == id,
    {
        let mut peers: Vec<String> = Vec::new();
        let mut known: Vec<Vec<u64>> = Vec::new();
        let mut i: usize = 0;
        while i < init.node_ids.len()
            invariant
                i <= init.node_ids@.len(),
                known@.len() == peers@.len(),
                forall|a: int, b: int| 0 <= a < b < peers@.len() ==> peers@[a]@ != peers@[b]@,
                forall|a: int| 0 <= a < known@.len() ==> (#[trigger] known@[a])@.len() == 0,
                forall|k: int|
                    0 <= k < i ==> exists|a: int|
                        0 <= a < peers@.len() && peers@[a]@ == #[trigger] init.node_ids@[k]@,
                forall|a: int|
                    0 <= a < peers@.len() ==> exists|k: int|
                        0 <= k < i && init.node_ids@[k]@ == #[trigger] peers@[a]@,
            decreases init.node_ids@.len() - i,
        {
            let ghost peers0: Seq<String> = peers@;
            let nid = &init.node_ids[i];
            let mut seen_before = false;
            let mut j: usize = 0;
            while j < peers.len()
                invariant
                    j <= peers@.len(),
                    seen_before <==> exists|a: int| 0 <= a < j && peers@[a]@ == nid@,
                decreases peers@.len() - j,
            {
                if same_id(&peers[j], nid) {
                    proof {
                        assert(peers@[j as int]@ == nid@);
                    }
                    seen_before = true;
                }
                j = j + 1;
            }
            if !seen_before {
                peers.push(nid.clone());
                known.push(Vec::new());
            }
            proof {
                assert(exists|a: int|
                    0 <= a < peers@.len() && peers@[a]@ == init.node_ids@[i as int]@) by {
                    if seen_before {
                        let a = choose|a: int| 0 <= a < peers0.len() && peers0[a]@ == nid@;
                        assert(peers@[a]@ == init.node_ids@[i as int]@);
                    } else {
                        assert(peers@[peers@.len() - 1]@ == init.node_ids@[i as int]@);
                    }
                }
                assert forall|k: int| 0 <= k < i implies exists|a: int|
                    0 <= a < peers@.len() && peers@[a]@ == #[trigger] init.node_ids@[k]@ by {
                    let a = choose|a: int| 0 <= a < peers0.len() && peers0[a]@ == init.node_ids@[k]@;
                    assert(peers@[a]@ == init.node_ids@[k]@);
                }
            }
            i = i + 1;
        }
        BroadcastNode {
            node: init.node_id,
            id: 1,
            messages: Vec::new(),
            peers,
            known,
            neighborhood: Vec::new(),
        }
    }

    /// Handle one inbound envelope and return the replies to send.
    ///
    /// A `Broadcast` value is inserted idempotently and acknowledged; a
    /// `Read` is answered with a snapshot of the value set; a `Topology`
    /// installs this node's neighbourhood (an assignment without an entry
    /// for this node is a protocol violation and is rejected); inbound
    /// `Gossip` merges the pushed values into both the value set and the
    /// sender's known set — gossip from a node outside the cluster is a
    /// typed, recoverable error, and on any error the state is unchanged.
    /// Acknowledgement payloads are absorbed without output.  Every
    /// handled message advances the message-id counter by one, and the
    /// value set only ever grows.
    pub fn step(&mut self, input: Message<BroadcastPayload>) -> (r: Result<
        Vec<Message<BroadcastPayload>>,
        NodeError,
    >)
        requires
            old(self).wf(),
            old(self).id < usize::MAX,
        ensures
            final(self).wf(),
            final(self).node == old(self).node,
            final(self).peers == old(self).peers,
            old(self).msg_set() <= final(self).msg_set(),
            old(self).messages@.is_prefix_of(final(self).messages@),
            r is Err ==> *final(self) == *old(self),
            match input.body.payload {
                BroadcastPayload::Broadcast { message } => {
                    &&& r matches Ok(out)
                    &&& out@.len() == 1
                    &&& is_reply_to(out@[0], input, old(self).id)
                    &&& out@[0].body.payload is BroadcastOk
                    &&& final(self).msg_set() == old(self).msg_set().insert(message)
                    &&& old(self).messages@.contains(message) ==> final(self).messages@ == old(
                        self,
                    ).messages@
                    &&& !old(self).messages@.contains(message) ==> final(self).messages@ == old(
                        self,
                    ).messages@.push(message)
                    &&& final(self).known == old(self).known
                    &&& final(self).neighborhood == old(self).neighborhood
                    &&& final(self).id == old(self).id + 1
                },
                BroadcastPayload::Read => {
                    &&& r matches Ok(out)
                    &&& out@.len() == 1
                    &&& is_reply_to(out@[0], input, old(self).id)
                    &&& out@[0].body.payload matches BroadcastPayload::ReadOk { messages }
                        && messages@ == old(self).messages@
                    &&& final(self).messages == old(self).messages
                    &&& final(self).known == old(self).known
                    &&& final(self).neighborhood == old(self).neighborhood
                    &&& final(self).id == old(self).id + 1
                },
                BroadcastPayload::Topology { topology } => {
                    if has_topology_entry(topology@, old(self).node@) {
                        &&& r matches Ok(out)
                        &&& out@.len() == 1
                        &&& is_reply_to(out@[0], input, old(self).id)
                        &&& out@[0].body.payload is TopologyOk
                        &&& exists|i: int|
                            0 <= i < topology@.len() && topology@[i].0@ == old(self).node@
                                && (forall|k: int|
                                0 <= k < i ==> topology@[k].0@ != old(self).node@)
                                && final(self).neighborhood == #[trigger] topology@[i].1
                        &&& final(self).messages == old(self).messages
                        &&& final(self).known == old(self).known
                        &&& final(self).id == old(self).id + 1
                    } else {
                        r == Err::<Vec<Message<BroadcastPayload>>, NodeError>(
                            NodeError::NoTopologyForSelf,
                        )
                    }
                },
                BroadcastPayload::Gossip { seen } => {
                    if old(self).has_peer(input.src@) {
                        let pi = old(self).peer_index(input.src@);
                        &&& r matches Ok(out)
                        &&& out@.len() == 0
                        &&& final(self).msg_set() == old(self).msg_set().union(seen@.to_set())
                        &&& final(self).known@.len() == old(self).known@.len()
                        &&& final(self).known_set(pi) == old(self).known_set(pi).union(
                            seen@.to_set(),
                        )
                        &&& forall|i: int|
                            0 <= i < old(self).known@.len() && i != pi ==> final(self).known@[i]
                                == old(self).known@[i]
                        &&& final(self).neighborhood == old(self).neighborhood
                        &&& final(self).id == old(self).id + 1
                    } else {
                        r == Err::<Vec<Message<BroadcastPayload>>, NodeError>(
                            NodeError::UnknownPeer,
                        )
                    }
                },
                _ => {
                    &&& r matches Ok(out)
                    &&& out@.len() == 0
                    &&& final(self).messages == old(self).messages
                    &&& final(self).known == old(self).known
                    &&& final(self).neighborhood == old(self).neighborhood
                    &&& final(self).id == old(self).id + 1
                },
            },
    {
        let Message { src, dst, body } = input;
        let Body { id: in_id, in_reply_to: _, payload } = body;
        match payload {
            BroadcastPayload::Broadcast { message } => {
                insert_val(&mut self.messages, message);
                let mid = self.id;
                self.id = self.id + 1;
                let mut out: Vec<Message<BroadcastPayload>> = Vec::new();
                out.push(
                    Message {
                        src: dst,
                        dst: src,
                        body: Body {
                            id: Some(mid),
                            in_reply_to: in_id,
                            payload: BroadcastPayload::BroadcastOk,
                        },
                    },
                );
                proof {
                    assert forall|i: int|
                        0 <= i < self.known@.len() implies #[trigger] self.known_set(i)
                        <= self.msg_set() by {
                        assert(old(self).known_set(i) <= old(self).msg_set());
                        assert(self.known_set(i) == old(self).known_set(i));
                        assert forall|x: u64| self.known_set(i).contains(x)
                            implies self.msg_set().contains(x) by {
                            assert(old(self).msg_set().contains(x));
                            assert(self.msg_set() == old(self).msg_set().insert(message));
                        }
                    }
                    if !old(self).messages@.contains(message) {
                        assert(old(self).messages@ =~= self.messages@.subrange(
                            0,
                            old(self).messages@.len() as int,
                        ));
                    }
                }
                Ok(out)
            },
            BroadcastPayload::Read => {
                let snapshot = clone_vals(&self.messages);
                let mid = self.id;
                self.id = self.id + 1;
                let mut out: Vec<Message<BroadcastPayload>> = Vec::new();
                out.push(
                    Message {
                        src: dst,
                        dst: src,
                        body: Body {
                            id: Some(mid),
                            in_reply_to: in_id,
                            payload: BroadcastPayload::ReadOk { messages: snapshot },
                        },
                    },
                );
                proof {
                    assert forall|i: int|
                        0 <= i < self.known@.len() implies #[trigger] self.known_set(i)
                        <= self.msg_set() by {
                        assert(old(self).known_set(i) <= old(self).msg_set());
                        assert(self.known_set(i) == old(self).known_set(i));
                        assert(self.msg_set() == old(self).msg_set());
                    }
                }
                Ok(out)
            },
            BroadcastPayload::Topology { topology } => {
                let mut topology = topology;
                let ghost topo0: Seq<(String, Vec<String>)> = topology@;
                let mut j: usize = 0;
                while j < topology.len()
                    invariant
                        *self == *old(self),
                        old(self).wf(),
                        old(self).id < usize::MAX,
                        input.body.payload matches BroadcastPayload::Topology { topology: t }
                            && t@ == topo0,
                        src == input.src,
                        dst == input.dst,
                        in_id == input.body.id,
                        topology@ == topo0,
                        j <= topology@.len(),
                        forall|k: int| 0 <= k < j ==> topology@[k].0@ != self.node@,
                    decreases topology@.len() - j,
                {
                    if same_id(&topology[j].0, &self.node) {
                        proof {
                            assert(has_topology_entry(topo0, self.node@)) by {
                                assert(topo0[j as int].0@ == self.node@);
                            }
                        }
                        let entry = topology.swap_remove(j);
                        self.neighborhood = entry.1;
                        let mid = self.id;
                        self.id = self.id + 1;
                        let mut out: Vec<Message<BroadcastPayload>> = Vec::new();
                        out.push(
                            Message {
                                src: dst,
                                dst: src,
                                body: Body {
                                    id: Some(mid),
                                    in_reply_to: in_id,
                                    payload: BroadcastPayload::TopologyOk,
                                },
                            },
                        );
                        proof {
                            assert(exists|i: int|
                                0 <= i < topo0.len() && topo0[i].0@ == old(self).node@ && (
                                forall|k: int| 0 <= k < i ==> topo0[k].0@ != old(self).node@)
                                    && self.neighborhood == #[trigger] topo0[i].1) by {
                                assert(self.neighborhood == topo0[j as int].1);
                            }
                            assert forall|i: int|
                                0 <= i < self.known@.len() implies #[trigger] self.known_set(i)
                                <= self.msg_set() by {
                                assert(old(self).known_set(i) <= old(self).msg_set());
                                assert(self.known_set(i) == old(self).known_set(i));
                                assert(self.msg_set() == old(self).msg_set());
                            }
                        }
                        return Ok(out);
                    }
                    j = j + 1;
                }
                Err(NodeError::NoTopologyForSelf)
            },
            BroadcastPayload::Gossip { seen } => {
                match self.find_peer(&src) {
                    None => Err(NodeError::UnknownPeer),
                    Some(pi) => {
                        let mut merged = clone_vals(&self.known[pi]);
                        union_into(&mut merged, &seen);
                        self.known.set(pi, merged);
                        union_into(&mut self.messages, &seen);
                        self.id = self.id + 1;
                        proof {
                            assert forall|i: int|
                                0 <= i < self.known@.len() implies #[trigger] self.known_set(i)
                                <= self.msg_set() by {
                                assert(old(self).known_set(i) <= old(self).msg_set());
                                if i == pi {
                                    assert(self.known_set(i) == old(self).known_set(i).union(
                                        seen@.to_set(),
                                    ));
                                } else {
                                    assert(self.known_set(i) == old(self).known_set(i));
                                }
                                assert forall|x: u64| self.known_set(i).contains(x)
                                    implies self.msg_set().contains(x) by {
                                    assert(self.msg_set() == old(self).msg_set().union(
                                        seen@.to_set(),
                                    ));
                                    if i != pi {
                                        assert(old(self).msg_set().contains(x));
                                    }
                                }
                            }
                        }
                        Ok(Vec::new())
                    },
                }
            },
            BroadcastPayload::BroadcastOk | BroadcastPayload::ReadOk { .. }
                | BroadcastPayload::TopologyOk => {
                self.id = self.id + 1;
                proof {
                    assert forall|i: int|
                        0 <= i < self.known@.len() implies #[trigger] self.known_set(i)
                        <= self.msg_set() by {
                        assert(old(self).known_set(i) <= old(self).msg_set());
                        assert(self.known_set(i) == old(self).known_set(i));
                        assert(self.msg_set() == old(self).msg_set());
                    }
                }
                Ok(Vec::new())
            },
        }
    }

    /// Run one gossip round: for every neighbourhood entry compute the
    /// values this node holds that the peer is not yet known to hold, and
    /// return one `Gossip` message per entry whose difference is
    /// non-empty, in neighbourhood order.  Nothing waits for a reply: a
    /// lost message is repaired because the next round recomputes the
    /// difference from current state.
    ///
    /// The known sets are deliberately left untouched at send time (the
    /// pessimistic policy): a peer is only believed to hold a value once
    /// its own gossip shows it, which costs repeat traffic but never
    /// under-sends.  The state is unchanged altogether, and a round with
    /// an empty (or not yet installed) neighbourhood is a no-op, not an
    /// error.  A neighbourhood entry outside the cluster is a typed,
    /// recoverable error.
    pub fn gossip(&mut self) -> (r: Result<Vec<Message<BroadcastPayload>>, NodeError>)
        requires
            old(self).wf(),
        ensures
            *final(self) == *old(self),
            r is Err <==> exists|i: int|
                0 <= i < old(self).neighborhood@.len() && !old(self).has_peer(
                    #[trigger] old(self).neighborhood@[i]@,
                ),
            old(self).neighborhood@.len() == 0 ==> (r matches Ok(out) && out@.len() == 0),
            match r {
                Ok(out) => {
                    &&& round_views(out@) == round_plan(
                        *old(self),
                        old(self).neighborhood@.len() as int,
                    )
                    &&& forall|k: int|
                        0 <= k < out@.len() ==> gossip_shape(*old(self), #[trigger] out@[k])
                },
                Err(e) => e == NodeError::UnknownPeer,
            },
    {
        let mut out: Vec<Message<BroadcastPayload>> = Vec::new();
        let mut i: usize = 0;
        while i < self.neighborhood.len()
            invariant
                *self == *old(self),
                old(self).wf(),
                i <= self.neighborhood@.len(),
                forall|k: int| 0 <= k < i ==> self.has_peer(#[trigger] self.neighborhood@[k]@),
                round_views(out@) == round_plan(*old(self), i as int),
                forall|k: int| 0 <= k < out@.len() ==> gossip_shape(*old(self), #[trigger] out@[k]),
            decreases self.neighborhood@.len() - i,
        {
            let dst = &self.neighborhood[i];
            match self.find_peer(dst) {
                None => {
                    proof {
                        assert(!old(self).has_peer(old(self).neighborhood@[i as int]@));
                    }
                    return Err(NodeError::UnknownPeer);
                },
                Some(pi) => {
                    let diff = diff_vals(&self.messages, &self.known[pi]);
                    let ghost pre: Seq<Message<BroadcastPayload>> = out@;
                    let ghost d: Seq<char> = self.neighborhood@[i as int]@;
                    let ghost dset: Set<u64> = self.msg_set().difference(self.known_set(pi as int));
                    if diff.len() > 0 {
                        let ghost dv: Seq<u64> = diff@;
                        let m = Message {
                            src: self.node.clone(),
                            dst: dst.clone(),
                            body: Body {
                                id: None,
                                in_reply_to: None,
                                payload: BroadcastPayload::Gossip { seen: diff },
                            },
                        };
                        out.push(m);
                        proof {
                            assert(gossip_view(m) == (d, dset));
                            assert(dv.to_set().contains(dv[0]));
                            assert(dset != Set::<u64>::empty());
                            lemma_round_views_push(pre, m);
                            assert(round_views(out@) == round_plan(*old(self), i + 1));
                            assert(gossip_shape(*old(self), m)) by {
                                assert(old(self).neighborhood@[i as int]@ == m.dst@);
                            }
                        }
                    } else {
                        proof {
                            assert(dset =~= Set::<u64>::empty());
                            assert(round_views(out@) == round_plan(*old(self), i + 1));
                        }
                    }
                },
            }
            i = i + 1;
        }
        proof {
            if out@.len() > 0 {
                assert(round_views(out@).len() == out@.len());
            }
        }
        Ok(out)
    }
}

} // verus!
