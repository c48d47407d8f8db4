//! The unique-id service: a stateless one-shot responder whose ids are the
//! node's identity joined to its monotonically increasing counter, so no two
//! ids of one node — and no two ids of distinct nodes — collide.

use vstd::prelude::*;
use vstd::string::StringExecFns;

use crate::node::Node;
use crate::protocol::Body;
use crate::protocol::InitPayload;
use crate::protocol::Message;
use crate::protocol::NodeError;
use crate::text::decimal;
use crate::text::push_decimal;

verus! {

/// The payloads of the unique-id protocol.
pub enum UnqiuePayload {
    Generate,
    GenerateOk { guid: String },
}

/// One node of the unique-id service: its identity and its outbound id
/// counter, which also numbers the generated ids.
pub struct UniqueNode {
    pub node_id: String,
    pub msg_counter: usize,
}

/// Everything one handled message of the unique-id service does: a
/// `generate` request is answered with a fresh id — the node's identity, a
/// dash, and the counter in decimal — correlated to the request; an
/// unsolicited `generate_ok` produces nothing; the counter advances by one
/// either way.
pub open spec fn unique_step(
    pre: UniqueNode,
    in_msg: Message<UnqiuePayload>,
    post: UniqueNode,
    r: Result<Vec<Message<UnqiuePayload>>, NodeError>,
) -> bool {
    &&& post.node_id@ == pre.node_id@
    &&& post.msg_counter == pre.msg_counter + 1
    &&& match in_msg.body.payload {
        UnqiuePayload::Generate => r matches Ok(out) && {
            &&& out@.len() == 1
            &&& out@[0].src@ == in_msg.dst@
            &&& out@[0].dst@ == in_msg.src@
            &&& out@[0].body.msg_id == Some(pre.msg_counter)
            &&& out@[0].body.in_reply_to == in_msg.body.msg_id
            &&& out@[0].body.payload matches UnqiuePayload::GenerateOk { guid } && guid@
                == pre.node_id@ + seq!['-'] + decimal(pre.msg_counter as nat)
        },
        UnqiuePayload::GenerateOk { .. } => r matches Ok(out) && out@.len() == 0,
    }
}

impl Node for UniqueNode {
    type Payload = UnqiuePayload;

    open spec fn ready(&self) -> bool {
        self.msg_counter < usize::MAX
    }

    /// The unique-id handler is defined on every message; an inbound
    /// `generate_ok` is ignored apart from the counter.
    open spec fn accepts(&self, in_msg: &Message<UnqiuePayload>) -> bool {
        true
    }

    open spec fn counter(&self) -> nat {
        self.msg_counter as nat
    }

    open spec fn step(
        pre: Self,
        in_msg: Message<UnqiuePayload>,
        post: Self,
        r: Result<Vec<Message<UnqiuePayload>>, NodeError>,
    ) -> bool {
        unique_step(pre, in_msg, post, r)
    }

    fn from_init(init: InitPayload) -> (node: Self)
        ensures
            init matches InitPayload::Init { node_id, node_ids } ==> node.node_id@ == node_id@,
            node.msg_counter == 1,
    {
        match init {
            InitPayload::Init { node_id, node_ids: _ } => UniqueNode { node_id, msg_counter: 1 },
            InitPayload::InitOk { .. } => vstd::pervasive::unreached(),
        }
    }

    /// Answer a `generate` request with a fresh id: the node's identity, a
    /// dash, and the counter in decimal. The counter advances on every
    /// message, so no id is ever handed out twice.
    fn handle_message(&mut self, in_msg: Message<UnqiuePayload>) -> (r: Result<
        Vec<Message<UnqiuePayload>>,
        NodeError,
    >)
        ensures
            unique_step(*old(self), in_msg, *final(self), r),
    {
        let Message { src, dst, body } = in_msg;
        let Body { msg_id, in_reply_to: _, payload } = body;
        let mut out: Vec<Message<UnqiuePayload>> = Vec::new();
        match payload {
            UnqiuePayload::Generate => {
                let mut guid = self.node_id.clone();
                proof {
                    reveal_strlit("-");
                }
                guid.append("-");
                push_decimal(&mut guid, self.msg_counter as u64);
                proof {
                    assert(guid@ =~= self.node_id@ + seq!['-'] + decimal(
                        self.msg_counter as nat,
                    ));
                }
                let reply = Message {
                    src: dst,
                    dst: src,
                    body: Body {
                        msg_id: Some(self.msg_counter),
                        in_reply_to: msg_id,
                        payload: UnqiuePayload::GenerateOk { guid },
                    },
                };
                out.push(reply);
            },
            UnqiuePayload::GenerateOk { .. } => {},
        }
        self.msg_counter = self.msg_counter + 1;
        Ok(out)
    }
}

} // verus!
