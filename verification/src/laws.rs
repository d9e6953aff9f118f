//! The general guarantees of the broadcast engine, proved over the set
//! model its contracts speak in: what a read shows after any sequence of
//! broadcasts, idempotence of re-broadcasting, and why pruned gossip
//! still converges.

use vstd::prelude::*;

use crate::broadcast::BroadcastNode;

verus! {

/// The value set after handling a sequence of `Broadcast` requests, one
/// insertion per request, starting from `s0`.  This is exactly what
/// `BroadcastNode::step` does to `msg_set` for each of them.
pub open spec fn after_broadcasts(s0: Set<u64>, vs: Seq<u64>) -> Set<u64>
    decreases vs.len(),
{
    if vs.len() == 0 {
        s0
    } else {
        after_broadcasts(s0, vs.drop_last()).insert(vs.last())
    }
}

/// Any sequence of broadcasts followed by a read shows exactly the
/// distinct values broadcast so far: handling `Broadcast { v }` for each
/// `v` of `vs` in turn yields the starting set united with the set of
/// values of `vs` — so a node that started empty answers a read (whose
/// reply is the value set, by `step`'s contract) with exactly the
/// distinct broadcast values.
pub proof fn lemma_broadcasts_then_read(s0: Set<u64>, vs: Seq<u64>)
    ensures
        after_broadcasts(s0, vs) == s0.union(vs.to_set()),
    decreases vs.len(),
{
    if vs.len() == 0 {
        assert(after_broadcasts(s0, vs) =~= s0.union(vs.to_set()));
    } else {
        lemma_broadcasts_then_read(s0, vs.drop_last());
        assert(vs.drop_last().push(vs.last()) =~= vs);
        Seq::lemma_push_to_set_commute(vs.drop_last(), vs.last());
        assert(after_broadcasts(s0, vs) =~= s0.union(vs.to_set()));
    }
}

/// The order in which broadcasts are dispatched does not matter: two
/// interleavings carrying the same values leave the same value set.
pub proof fn lemma_broadcast_order_irrelevant(s0: Set<u64>, vs1: Seq<u64>, vs2: Seq<u64>)
    requires
        vs1.to_set() == vs2.to_set(),
    ensures
        after_broadcasts(s0, vs1) == after_broadcasts(s0, vs2),
{
    lemma_broadcasts_then_read(s0, vs1);
    lemma_broadcasts_then_read(s0, vs2);
}

/// Re-broadcasting a known value changes nothing: inserting a value a set
/// already holds is a no-op.  (`step`'s contract sharpens this to the
/// representation itself: the value vector is left bit-for-bit unchanged,
/// so no duplicate can ever enter a gossip payload either.)
pub proof fn lemma_rebroadcast_no_change(s: Set<u64>, v: u64)
    requires
        s.contains(v),
    ensures
        s.insert(v) == s,
{
    assert(s.insert(v) =~= s);
}

/// Pruning gossip by the sender's beliefs loses nothing, as long as the
/// belief is sound (the receiver really holds everything the sender
/// believes it holds): merging only the pruned difference leaves the
/// receiver with the same set as merging everything the sender has.
pub proof fn lemma_pruned_gossip_suffices(sender: Set<u64>, receiver: Set<u64>, believed: Set<u64>)
    requires
        believed <= receiver,
    ensures
        receiver.union(sender.difference(believed)) == receiver.union(sender),
{
    assert(receiver.union(sender.difference(believed)) =~= receiver.union(sender));
}

/// One delivered gossip round fully converges a pair of nodes: when node
/// `a` gossips to the peer it lists at index `pi` and that peer — node
/// `b` — handles the message, `b` ends up holding everything both held,
/// despite the payload having been pruned.  The hypotheses are exactly
/// what the engine's contracts provide: the round's payload is the
/// pruned difference (`gossip`), handling it unions the payload into the
/// receiver's set (`step`), and `a`'s belief about `b` is sound — `known`
/// sets only ever grow from values the peer itself sent, and value sets
/// never shrink.  Repeating rounds therefore converges every connected
/// pair, and a dropped message merely postpones this: the next round
/// recomputes the difference from current state.
pub proof fn lemma_round_delivery_converges(
    a: BroadcastNode,
    b: BroadcastNode,
    b_after: BroadcastNode,
    pi: int,
)
    requires
        0 <= pi < a.known@.len(),
        a.known_set(pi) <= b.msg_set(),
        b_after.msg_set() == b.msg_set().union(a.msg_set().difference(a.known_set(pi))),
    ensures
        b_after.msg_set() == a.msg_set().union(b.msg_set()),
{
    lemma_pruned_gossip_suffices(a.msg_set(), b.msg_set(), a.known_set(pi));
    assert(b.msg_set().union(a.msg_set()) =~= a.msg_set().union(b.msg_set()));
}

} // verus!
