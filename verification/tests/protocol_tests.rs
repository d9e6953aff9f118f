use rustengan::protocol::Body;
use rustengan::protocol::EchoPayload;
use rustengan::protocol::InitPayload;
use rustengan::protocol::Message;
use rustengan::protocol::NodeError;
use rustengan::runtime::handshake;
use rustengan::Init;

fn init_message() -> Message<InitPayload> {
    Message {
        src: String::from("c0"),
        dst: String::from("n1"),
        body: Body {
            id: Some(1),
            in_reply_to: None,
            payload: InitPayload::Init(Init {
                node_id: String::from("n1"),
                node_ids: vec![String::from("n1"), String::from("n2")],
            }),
        },
    }
}

#[test]
fn into_reply_swaps_and_stamps() {
    let msg = Message {
        src: String::from("c2"),
        dst: String::from("n1"),
        body: Body {
            id: Some(7),
            in_reply_to: None,
            payload: EchoPayload::Echo { echo: String::from("hi") },
        },
    };
    let mut next_id: usize = 4;
    let reply = msg.into_reply(&mut next_id);
    assert_eq!(reply.src, "n1");
    assert_eq!(reply.dst, "c2");
    assert_eq!(reply.body.id, Some(4));
    assert_eq!(reply.body.in_reply_to, Some(7));
    assert!(matches!(reply.body.payload, EchoPayload::Echo { ref echo } if echo == "hi"));
    assert_eq!(next_id, 5);
}

#[test]
fn handshake_acknowledges_init() {
    let (init, reply) = handshake(init_message()).unwrap();
    assert_eq!(init.node_id, "n1");
    assert_eq!(init.node_ids, vec![String::from("n1"), String::from("n2")]);
    assert_eq!(reply.src, "n1");
    assert_eq!(reply.dst, "c0");
    assert_eq!(reply.body.id, Some(0));
    assert_eq!(reply.body.in_reply_to, Some(1));
    assert!(matches!(reply.body.payload, InitPayload::InitOk));
}

#[test]
fn handshake_rejects_non_init() {
    let msg = Message {
        src: String::from("c0"),
        dst: String::from("n1"),
        body: Body { id: Some(1), in_reply_to: None, payload: InitPayload::InitOk },
    };
    assert_eq!(handshake(msg).unwrap_err(), NodeError::NotInit);
}
