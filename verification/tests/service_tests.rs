use maelstrom_rs::Body;
use maelstrom_rs::EchoNode;
use maelstrom_rs::EchoPayLoad;
use maelstrom_rs::InitPayload;
use maelstrom_rs::Message;
use maelstrom_rs::Node;
use maelstrom_rs::NodeError;
use maelstrom_rs::UniqueNode;
use maelstrom_rs::UnqiuePayload;
use maelstrom_rs::init_reply;

fn init_message(msg_id: Option<usize>, payload: InitPayload) -> Message<InitPayload> {
    Message {
        src: "c0".to_string(),
        dst: "n1".to_string(),
        body: Body { msg_id, in_reply_to: None, payload },
    }
}

#[test]
fn handshake_reply_uses_reserved_id() {
    let msg = init_message(
        Some(7),
        InitPayload::Init {
            node_id: "n1".to_string(),
            node_ids: vec!["n1".to_string(), "n2".to_string()],
        },
    );
    let (node_id, reply) = init_reply(&msg).unwrap();
    assert_eq!(node_id, "n1");
    assert_eq!(reply.src, "n1");
    assert_eq!(reply.dst, "c0");
    assert_eq!(reply.body.msg_id, Some(0));
    assert_eq!(reply.body.in_reply_to, Some(7));
    match reply.body.payload {
        InitPayload::InitOk { in_reply_to } => assert_eq!(in_reply_to, 7),
        _ => panic!("handshake must be answered with init_ok"),
    }
}

#[test]
fn handshake_rejects_non_init() {
    let msg = init_message(Some(7), InitPayload::InitOk { in_reply_to: 3 });
    assert!(matches!(init_reply(&msg), Err(NodeError::MalformedInit)));
}

#[test]
fn handshake_rejects_missing_msg_id() {
    let msg = init_message(
        None,
        InitPayload::Init { node_id: "n1".to_string(), node_ids: vec!["n1".to_string()] },
    );
    assert!(matches!(init_reply(&msg), Err(NodeError::MalformedInit)));
}

#[test]
fn echo_round_trip() {
    let mut node = EchoNode::from_init(InitPayload::Init {
        node_id: "n1".to_string(),
        node_ids: vec!["n1".to_string()],
    });
    for (i, text) in ["hello", "again"].into_iter().enumerate() {
        let out = node
            .handle_message(Message {
                src: "c1".to_string(),
                dst: "n1".to_string(),
                body: Body {
                    msg_id: Some(i + 10),
                    in_reply_to: None,
                    payload: EchoPayLoad::Echo { echo: text.to_string() },
                },
            })
            .unwrap();
        assert_eq!(out.len(), 1);
        assert_eq!(out[0].src, "n1");
        assert_eq!(out[0].dst, "c1");
        assert_eq!(out[0].body.msg_id, Some(i + 1));
        assert_eq!(out[0].body.in_reply_to, Some(i + 10));
        match &out[0].body.payload {
            EchoPayLoad::EchoOk { echo } => assert_eq!(echo, text),
            _ => panic!("echo must be answered with echo_ok"),
        }
    }
}

#[test]
fn unique_ids_join_node_and_counter() {
    let mut node = UniqueNode::from_init(InitPayload::Init {
        node_id: "n5".to_string(),
        node_ids: vec!["n5".to_string()],
    });
    let mut ids: Vec<String> = Vec::new();
    for i in 0..2 {
        let out = node
            .handle_message(Message {
                src: "c1".to_string(),
                dst: "n5".to_string(),
                body: Body {
                    msg_id: Some(i + 1),
                    in_reply_to: None,
                    payload: UnqiuePayload::Generate,
                },
            })
            .unwrap();
        assert_eq!(out.len(), 1);
        assert_eq!(out[0].body.in_reply_to, Some(i + 1));
        match &out[0].body.payload {
            UnqiuePayload::GenerateOk { guid } => ids.push(guid.clone()),
            _ => panic!("generate must be answered with generate_ok"),
        }
    }
    assert_eq!(ids, vec!["n5-1".to_string(), "n5-2".to_string()]);
    assert_ne!(ids[0], ids[1]);
}

#[test]
fn unique_ids_write_multi_digit_counters() {
    let mut node = UniqueNode::from_init(InitPayload::Init {
        node_id: "n2".to_string(),
        node_ids: vec!["n2".to_string()],
    });
    node.msg_counter = 1230;
    let out = node
        .handle_message(Message {
            src: "c1".to_string(),
            dst: "n2".to_string(),
            body: Body {
                msg_id: Some(1),
                in_reply_to: None,
                payload: UnqiuePayload::Generate,
            },
        })
        .unwrap();
    match &out[0].body.payload {
        UnqiuePayload::GenerateOk { guid } => assert_eq!(guid, "n2-1230"),
        _ => panic!("generate must be answered with generate_ok"),
    }
}

#[test]
fn unique_node_ignores_unsolicited_generate_ok() {
    let mut node = UniqueNode::from_init(InitPayload::Init {
        node_id: "n1".to_string(),
        node_ids: vec!["n1".to_string()],
    });
    let out = node
        .handle_message(Message {
            src: "c1".to_string(),
            dst: "n1".to_string(),
            body: Body {
                msg_id: Some(1),
                in_reply_to: None,
                payload: UnqiuePayload::GenerateOk { guid: "x-1".to_string() },
            },
        })
        .unwrap();
    assert!(out.is_empty());
    assert_eq!(node.msg_counter, 2);
}
