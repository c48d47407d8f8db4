use maelstrom_rs::Body;
use maelstrom_rs::BroadcastNode;
use maelstrom_rs::BroadcastPayload;
use maelstrom_rs::InitPayload;
use maelstrom_rs::Message;
use maelstrom_rs::NodeError;
use maelstrom_rs::Topology;
use maelstrom_rs::runtime_step;

fn new_node(id: &str) -> BroadcastNode {
    BroadcastNode::from_init(InitPayload::Init {
        node_id: id.to_string(),
        node_ids: vec![id.to_string()],
    })
}

fn req(
    src: &str,
    dst: &str,
    msg_id: Option<usize>,
    payload: BroadcastPayload,
) -> Message<BroadcastPayload> {
    Message {
        src: src.to_string(),
        dst: dst.to_string(),
        body: Body { msg_id, in_reply_to: None, payload },
    }
}

fn topo(entries: &[(&str, &[&str])]) -> Topology {
    let mut t = Topology::new();
    for (key, neighbours) in entries {
        t.insert(
            key.to_string(),
            neighbours.iter().map(|s| s.to_string()).collect(),
        );
    }
    t
}

fn read_values(node: &mut BroadcastNode, msg_id: usize) -> Vec<i32> {
    let out = node
        .handle_message(req("c9", "n1", Some(msg_id), BroadcastPayload::Read))
        .unwrap();
    assert_eq!(out.len(), 1);
    match &out[0].body.payload {
        BroadcastPayload::ReadOk { messages } => messages.clone(),
        _ => panic!("read must be answered with read_ok"),
    }
}

#[test]
fn fan_out_targeting() {
    let mut node = new_node("n1");
    let out = node
        .handle_message(req(
            "c1",
            "n1",
            Some(1),
            BroadcastPayload::Topology { topology: topo(&[("n1", &["n2", "n3"])]) },
        ))
        .unwrap();
    assert_eq!(out.len(), 1);
    assert!(matches!(out[0].body.payload, BroadcastPayload::TopologyOk));

    let out = node
        .handle_message(req("c1", "n1", Some(2), BroadcastPayload::Broadcast { message: 7 }))
        .unwrap();
    assert_eq!(out.len(), 3);
    for (fanned, dst) in out[..2].iter().zip(["n2", "n3"]) {
        assert_eq!(fanned.src, "n1");
        assert_eq!(fanned.dst, dst);
        assert!(fanned.body.msg_id.is_none());
        assert!(fanned.body.in_reply_to.is_none());
        match &fanned.body.payload {
            BroadcastPayload::Broadcast { message } => assert_eq!(*message, 7),
            _ => panic!("fan-out must carry a broadcast payload"),
        }
    }
    assert_eq!(out[2].src, "n1");
    assert_eq!(out[2].dst, "c1");
    assert_eq!(out[2].body.in_reply_to, Some(2));
    assert!(matches!(out[2].body.payload, BroadcastPayload::BroadcastOk));
}

#[test]
fn idempotent_broadcast() {
    let mut node = new_node("n1");
    let out = node
        .handle_message(req(
            "c1",
            "n1",
            Some(1),
            BroadcastPayload::Topology { topology: topo(&[("n1", &["n2"])]) },
        ))
        .unwrap();
    assert_eq!(out.len(), 1);

    let first = node
        .handle_message(req("c1", "n1", Some(2), BroadcastPayload::Broadcast { message: 5 }))
        .unwrap();
    assert_eq!(first.len(), 2);

    for msg_id in 3..6 {
        let again = node
            .handle_message(req(
                "c1",
                "n1",
                Some(msg_id),
                BroadcastPayload::Broadcast { message: 5 },
            ))
            .unwrap();
        assert!(again.is_empty());
    }

    assert_eq!(read_values(&mut node, 6), vec![5]);
}

#[test]
fn read_completeness() {
    let mut node = new_node("n1");
    for (msg_id, value) in [1, 2, 2, 3].into_iter().enumerate() {
        node.handle_message(req(
            "c1",
            "n1",
            Some(msg_id + 1),
            BroadcastPayload::Broadcast { message: value },
        ))
        .unwrap();
    }
    assert_eq!(read_values(&mut node, 5), vec![1, 2, 3]);
}

#[test]
fn correlation_correctness() {
    let mut node = new_node("n1");
    let out = node
        .handle_message(req("c4", "n1", Some(9), BroadcastPayload::Read))
        .unwrap();
    assert_eq!(out.len(), 1);
    assert_eq!(out[0].src, "n1");
    assert_eq!(out[0].dst, "c4");
    assert_eq!(out[0].body.in_reply_to, Some(9));
    assert_eq!(out[0].body.msg_id, Some(1));
}

#[test]
fn topology_replace_semantics() {
    let mut node = new_node("n1");
    node.handle_message(req(
        "c1",
        "n1",
        Some(1),
        BroadcastPayload::Topology { topology: topo(&[("n1", &["n2"])]) },
    ))
    .unwrap();
    let out = node
        .handle_message(req("c1", "n1", Some(2), BroadcastPayload::Broadcast { message: 1 }))
        .unwrap();
    assert_eq!(out.len(), 2);
    assert_eq!(out[0].dst, "n2");

    node.handle_message(req(
        "c1",
        "n1",
        Some(3),
        BroadcastPayload::Topology { topology: topo(&[("n1", &["n3"])]) },
    ))
    .unwrap();
    let out = node
        .handle_message(req("c1", "n1", Some(4), BroadcastPayload::Broadcast { message: 2 }))
        .unwrap();
    assert_eq!(out.len(), 2);
    assert_eq!(out[0].dst, "n3");
    assert!(matches!(out[1].body.payload, BroadcastPayload::BroadcastOk));
}

#[test]
fn fan_out_skipped_without_entry() {
    let mut node = new_node("n1");
    let out = node
        .handle_message(req("c1", "n1", Some(1), BroadcastPayload::Broadcast { message: 4 }))
        .unwrap();
    assert_eq!(out.len(), 1);
    assert!(matches!(out[0].body.payload, BroadcastPayload::BroadcastOk));
    assert_eq!(read_values(&mut node, 2), vec![4]);
}

#[test]
fn decode_failure_resilience() {
    let mut node = new_node("n1");
    let (out, err) = runtime_step(&mut node, Some(req("c1", "n1", Some(1), BroadcastPayload::Read)));
    assert_eq!(out.len(), 1);
    assert!(matches!(out[0].body.payload, BroadcastPayload::ReadOk { .. }));
    assert!(err.is_none());

    let (out, err) = runtime_step(&mut node, None);
    assert!(out.is_empty());
    assert!(matches!(err, Some(NodeError::DecodeFailed)));

    let (out, err) = runtime_step(&mut node, Some(req("c1", "n1", Some(2), BroadcastPayload::Read)));
    assert_eq!(out.len(), 1);
    assert!(matches!(out[0].body.payload, BroadcastPayload::ReadOk { .. }));
    assert!(err.is_none());
}

#[test]
fn handler_error_surfaces_in_failure_slot() {
    let mut node = new_node("n1");
    let (out, err) = runtime_step(
        &mut node,
        Some(req("c1", "n1", Some(1), BroadcastPayload::BroadcastOk)),
    );
    assert!(out.is_empty());
    assert!(matches!(err, Some(NodeError::UnexpectedReply)));

    let (out, err) = runtime_step(&mut node, Some(req("c1", "n1", Some(2), BroadcastPayload::Read)));
    assert!(err.is_none());
    assert_eq!(out.len(), 1);
    assert!(matches!(out[0].body.payload, BroadcastPayload::ReadOk { .. }));
}

#[test]
fn monotonic_message_ids() {
    let mut node = new_node("n1");
    let requests = vec![
        BroadcastPayload::Read,
        BroadcastPayload::Broadcast { message: 8 },
        BroadcastPayload::Topology { topology: topo(&[("n1", &["n2"])]) },
        BroadcastPayload::Broadcast { message: 9 },
        BroadcastPayload::Read,
    ];
    let mut assigned: Vec<usize> = Vec::new();
    for (i, payload) in requests.into_iter().enumerate() {
        let out = node.handle_message(req("c1", "n1", Some(i + 1), payload)).unwrap();
        for msg in out {
            if let Some(id) = msg.body.msg_id {
                assigned.push(id);
            }
        }
    }
    assert!(!assigned.is_empty());
    for pair in assigned.windows(2) {
        assert!(pair[0] < pair[1]);
    }
}

#[test]
fn unexpected_reply_is_reported() {
    let mut node = new_node("n1");
    for payload in [
        BroadcastPayload::BroadcastOk,
        BroadcastPayload::ReadOk { messages: vec![1] },
        BroadcastPayload::TopologyOk,
    ] {
        let r = node.handle_message(req("c1", "n1", Some(1), payload));
        assert!(matches!(r, Err(NodeError::UnexpectedReply)));
    }
    assert_eq!(read_values(&mut node, 2), Vec::<i32>::new());
}

#[test]
fn topology_lookup_follows_last_insert() {
    let mut t = Topology::new();
    t.insert("n1".to_string(), vec!["n2".to_string()]);
    t.insert("n1".to_string(), vec!["n3".to_string(), "n4".to_string()]);
    let nbrs = t.get(&"n1".to_string()).unwrap();
    assert_eq!(nbrs, &vec!["n3".to_string(), "n4".to_string()]);
    assert!(t.get(&"n2".to_string()).is_none());
}
