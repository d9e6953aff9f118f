use rustengan::digits::dec_string;
use rustengan::protocol::Body;
use rustengan::protocol::EchoPayload;
use rustengan::protocol::Message;
use rustengan::protocol::UniquePayload;
use rustengan::EchoNode;
use rustengan::Init;
use rustengan::UniqueNode;

fn one_node_init(own: &str) -> Init {
    Init { node_id: String::from(own), node_ids: vec![String::from(own)] }
}

#[test]
fn echo_returns_the_same_text() {
    let mut node = EchoNode::from_init(one_node_init("n1"));
    let msg = Message {
        src: String::from("c4"),
        dst: String::from("n1"),
        body: Body {
            id: Some(3),
            in_reply_to: None,
            payload: EchoPayload::Echo { echo: String::from("hello there") },
        },
    };
    let out = node.step(msg).unwrap();
    assert_eq!(out.len(), 1);
    assert_eq!(out[0].src, "n1");
    assert_eq!(out[0].dst, "c4");
    assert_eq!(out[0].body.id, Some(1));
    assert_eq!(out[0].body.in_reply_to, Some(3));
    match &out[0].body.payload {
        EchoPayload::EchoOk { echo } => assert_eq!(echo, "hello there"),
        _ => panic!("echo must be answered with echo_ok"),
    }
    assert_eq!(node.id, 2);
}

#[test]
fn echo_ok_is_absorbed() {
    let mut node = EchoNode::from_init(one_node_init("n1"));
    let msg = Message {
        src: String::from("c4"),
        dst: String::from("n1"),
        body: Body {
            id: Some(3),
            in_reply_to: None,
            payload: EchoPayload::EchoOk { echo: String::from("hello") },
        },
    };
    let out = node.step(msg).unwrap();
    assert_eq!(out.len(), 0);
    assert_eq!(node.id, 1);
}

#[test]
fn generated_ids_embed_node_and_counter() {
    let mut node = UniqueNode::from_init(one_node_init("n1"));
    let msg = Message {
        src: String::from("c4"),
        dst: String::from("n1"),
        body: Body { id: Some(10), in_reply_to: None, payload: UniquePayload::Generate },
    };
    let out = node.step(msg.clone()).unwrap();
    assert_eq!(out[0].body.id, Some(1));
    assert_eq!(out[0].body.in_reply_to, Some(10));
    match &out[0].body.payload {
        UniquePayload::GenerateOk { guid } => assert_eq!(guid, "n1-2"),
        _ => panic!("generate must be answered with generate_ok"),
    }
    let out = node.step(msg).unwrap();
    match &out[0].body.payload {
        UniquePayload::GenerateOk { guid } => assert_eq!(guid, "n1-4"),
        _ => panic!("generate must be answered with generate_ok"),
    }
}

#[test]
fn decimal_rendering_is_exact() {
    assert_eq!(dec_string(0), "0");
    assert_eq!(dec_string(9), "9");
    assert_eq!(dec_string(10), "10");
    assert_eq!(dec_string(90210), "90210");
    assert_eq!(dec_string(usize::MAX), usize::MAX.to_string());
}
