use rustengan::protocol::Body;
use rustengan::protocol::BroadcastPayload;
use rustengan::protocol::Message;
use rustengan::protocol::NodeError;
use rustengan::BroadcastNode;
use rustengan::Init;

fn two_node_init(own: &str, other: &str) -> Init {
    Init { node_id: String::from(own), node_ids: vec![String::from(own), String::from(other)] }
}

fn envelope(src: &str, dst: &str, id: Option<usize>, payload: BroadcastPayload) -> Message<
    BroadcastPayload,
> {
    Message {
        src: String::from(src),
        dst: String::from(dst),
        body: Body { id, in_reply_to: None, payload },
    }
}

fn read_values(node: &mut BroadcastNode) -> Vec<u64> {
    let out = node.step(envelope("c1", "A", Some(99), BroadcastPayload::Read)).unwrap();
    assert_eq!(out.len(), 1);
    match &out[0].body.payload {
        BroadcastPayload::ReadOk { messages } => messages.clone(),
        _ => panic!("read must be answered with read_ok"),
    }
}

fn ab_topology() -> BroadcastPayload {
    BroadcastPayload::Topology {
        topology: vec![
            (String::from("A"), vec![String::from("B")]),
            (String::from("B"), vec![String::from("A")]),
        ],
    }
}

#[test]
fn read_before_broadcast_is_empty() {
    let mut node = BroadcastNode::from_init(two_node_init("A", "B"));
    assert_eq!(read_values(&mut node), Vec::<u64>::new());
}

#[test]
fn read_shows_distinct_broadcast_values() {
    let mut node = BroadcastNode::from_init(two_node_init("A", "B"));
    for v in [1u64, 2, 2, 3] {
        let out = node
            .step(envelope("c1", "A", Some(5), BroadcastPayload::Broadcast { message: v }))
            .unwrap();
        assert_eq!(out.len(), 1);
        assert!(matches!(out[0].body.payload, BroadcastPayload::BroadcastOk));
    }
    assert_eq!(read_values(&mut node), vec![1, 2, 3]);
}

#[test]
fn broadcast_reply_correlates_to_request() {
    let mut node = BroadcastNode::from_init(two_node_init("A", "B"));
    let out = node
        .step(envelope("c1", "A", Some(41), BroadcastPayload::Broadcast { message: 7 }))
        .unwrap();
    assert_eq!(out[0].src, "A");
    assert_eq!(out[0].dst, "c1");
    assert_eq!(out[0].body.id, Some(1));
    assert_eq!(out[0].body.in_reply_to, Some(41));
    let out = node
        .step(envelope("c1", "A", Some(42), BroadcastPayload::Broadcast { message: 8 }))
        .unwrap();
    assert_eq!(out[0].body.id, Some(2));
    assert_eq!(out[0].body.in_reply_to, Some(42));
}

#[test]
fn rebroadcast_changes_nothing() {
    let mut node = BroadcastNode::from_init(two_node_init("A", "B"));
    node.step(envelope("c1", "A", Some(1), BroadcastPayload::Broadcast { message: 7 })).unwrap();
    let before = node.messages.clone();
    node.step(envelope("c1", "A", Some(2), BroadcastPayload::Broadcast { message: 7 })).unwrap();
    assert_eq!(node.messages, before);
    assert_eq!(read_values(&mut node), vec![7]);
}

#[test]
fn topology_broadcast_gossip_reaches_neighbour() {
    let mut a = BroadcastNode::from_init(two_node_init("A", "B"));
    let out = a.step(envelope("c1", "A", Some(1), ab_topology())).unwrap();
    assert_eq!(out.len(), 1);
    assert!(matches!(out[0].body.payload, BroadcastPayload::TopologyOk));

    let out = a
        .step(envelope("c1", "A", Some(2), BroadcastPayload::Broadcast { message: 7 }))
        .unwrap();
    assert!(matches!(out[0].body.payload, BroadcastPayload::BroadcastOk));

    let round = a.gossip().unwrap();
    assert_eq!(round.len(), 1);
    assert_eq!(round[0].src, "A");
    assert_eq!(round[0].dst, "B");
    assert_eq!(round[0].body.id, None);
    assert_eq!(round[0].body.in_reply_to, None);
    match &round[0].body.payload {
        BroadcastPayload::Gossip { seen } => assert_eq!(seen, &vec![7]),
        _ => panic!("a gossip round sends gossip payloads"),
    }

    let mut b = BroadcastNode::from_init(two_node_init("B", "A"));
    let gossip_to_b = round.into_iter().next().unwrap();
    let out = b.step(gossip_to_b).unwrap();
    assert_eq!(out.len(), 0);
    let mut read_b = b.step(envelope("c2", "B", Some(1), BroadcastPayload::Read)).unwrap();
    match read_b.pop().unwrap().body.payload {
        BroadcastPayload::ReadOk { messages } => assert_eq!(messages, vec![7]),
        _ => panic!("read must be answered with read_ok"),
    }
}

#[test]
fn gossip_excludes_values_known_to_neighbour() {
    let mut a = BroadcastNode::from_init(two_node_init("A", "B"));
    a.step(envelope("c1", "A", Some(1), ab_topology())).unwrap();
    // B pushes 7, so A now holds 7 and knows that B holds it.
    a.step(envelope("B", "A", None, BroadcastPayload::Gossip { seen: vec![7] })).unwrap();
    a.step(envelope("c1", "A", Some(2), BroadcastPayload::Broadcast { message: 8 })).unwrap();
    let round = a.gossip().unwrap();
    assert_eq!(round.len(), 1);
    match &round[0].body.payload {
        BroadcastPayload::Gossip { seen } => {
            assert_eq!(seen, &vec![8]);
            assert!(!seen.contains(&7));
        }
        _ => panic!("a gossip round sends gossip payloads"),
    }
}

#[test]
fn round_is_skipped_when_neighbour_misses_nothing() {
    let mut a = BroadcastNode::from_init(two_node_init("A", "B"));
    a.step(envelope("c1", "A", Some(1), ab_topology())).unwrap();
    a.step(envelope("B", "A", None, BroadcastPayload::Gossip { seen: vec![7] })).unwrap();
    // A holds exactly what B already has: nothing to send.
    assert_eq!(a.gossip().unwrap().len(), 0);
}

#[test]
fn gossip_without_topology_is_noop() {
    let mut node = BroadcastNode::from_init(two_node_init("A", "B"));
    node.step(envelope("c1", "A", Some(1), BroadcastPayload::Broadcast { message: 7 })).unwrap();
    let round = node.gossip().unwrap();
    assert_eq!(round.len(), 0);
}

#[test]
fn gossip_from_unknown_peer_is_recoverable() {
    let mut node = BroadcastNode::from_init(two_node_init("A", "B"));
    let err = node
        .step(envelope("Z", "A", None, BroadcastPayload::Gossip { seen: vec![7] }))
        .unwrap_err();
    assert_eq!(err, NodeError::UnknownPeer);
    // The failed message left no trace.
    assert_eq!(read_values(&mut node), Vec::<u64>::new());
}

#[test]
fn topology_without_self_entry_is_rejected() {
    let mut node = BroadcastNode::from_init(two_node_init("A", "B"));
    let payload = BroadcastPayload::Topology {
        topology: vec![(String::from("B"), vec![String::from("A")])],
    };
    let err = node.step(envelope("c1", "A", Some(1), payload)).unwrap_err();
    assert_eq!(err, NodeError::NoTopologyForSelf);
}

#[test]
fn unknown_neighbourhood_entry_fails_the_round() {
    let mut node = BroadcastNode::from_init(two_node_init("A", "B"));
    let payload = BroadcastPayload::Topology {
        topology: vec![(String::from("A"), vec![String::from("Z")])],
    };
    node.step(envelope("c1", "A", Some(1), payload)).unwrap();
    node.step(envelope("c1", "A", Some(2), BroadcastPayload::Broadcast { message: 7 })).unwrap();
    assert_eq!(node.gossip().unwrap_err(), NodeError::UnknownPeer);
}

#[test]
fn state_stays_well_formed() {
    let mut node = BroadcastNode::from_init(two_node_init("A", "B"));
    assert!(node.invariant_holds());
    node.step(envelope("c1", "A", Some(1), ab_topology())).unwrap();
    node.step(envelope("c1", "A", Some(2), BroadcastPayload::Broadcast { message: 7 })).unwrap();
    node.step(envelope("B", "A", None, BroadcastPayload::Gossip { seen: vec![7, 9] })).unwrap();
    assert!(node.invariant_holds());
    // Hand-built state that breaks the invariant is detected.
    let broken = BroadcastNode {
        node: String::from("A"),
        id: 1,
        messages: vec![],
        peers: vec![String::from("A")],
        known: vec![vec![5]],
        neighborhood: vec![],
    };
    assert!(!broken.invariant_holds());
}

#[test]
fn duplicate_members_collapse_in_handshake() {
    let init = Init {
        node_id: String::from("A"),
        node_ids: vec![String::from("A"), String::from("B"), String::from("A")],
    };
    let node = BroadcastNode::from_init(init);
    assert_eq!(node.peers, vec![String::from("A"), String::from("B")]);
    assert_eq!(node.known.len(), 2);
}
