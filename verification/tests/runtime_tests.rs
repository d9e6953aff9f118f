use rustengan::protocol::Body;
use rustengan::protocol::BroadcastPayload;
use rustengan::protocol::Message;
use rustengan::BroadcastNode;
use rustengan::Init;
use rustengan::Lifecycle;
use rustengan::Node;
use rustengan::Phase;

#[test]
fn lifecycle_drains_before_stopping() {
    let mut lc = Lifecycle::new();
    assert_eq!(lc.phase, Phase::AwaitingInit);
    lc.handshake_done();
    assert_eq!(lc.phase, Phase::Running);
    lc.unit_started();
    lc.unit_started();
    assert_eq!(lc.inflight, 2);
    lc.input_closed();
    assert_eq!(lc.phase, Phase::Draining);
    lc.unit_done();
    assert_eq!(lc.phase, Phase::Draining);
    lc.unit_done();
    assert_eq!(lc.phase, Phase::Stopped);
    assert_eq!(lc.inflight, 0);
}

#[test]
fn behaviours_are_driven_through_the_node_trait() {
    let init = Init {
        node_id: String::from("n1"),
        node_ids: vec![String::from("n1"), String::from("n2")],
    };
    let mut node: BroadcastNode = Node::from_init((), init).unwrap();
    let out = Node::step(
        &mut node,
        Message {
            src: String::from("c1"),
            dst: String::from("n1"),
            body: Body {
                id: Some(1),
                in_reply_to: None,
                payload: BroadcastPayload::Broadcast { message: 3 },
            },
        },
    )
    .unwrap();
    assert_eq!(out.len(), 1);
    // No topology yet: the gossip capability is a no-op.
    assert_eq!(Node::gossip(&mut node).unwrap().len(), 0);
}

#[test]
fn lifecycle_stops_at_once_when_idle() {
    let mut lc = Lifecycle::new();
    lc.handshake_done();
    lc.unit_started();
    lc.unit_done();
    lc.input_closed();
    assert_eq!(lc.phase, Phase::Stopped);
}
