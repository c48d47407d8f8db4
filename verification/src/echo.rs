//! The echo service: a stateless one-shot responder with no invariant beyond
//! correlation — each `echo` request is answered with an `echo_ok` carrying
//! the same text.

use vstd::prelude::*;

use crate::node::Node;
use crate::protocol::Body;
use crate::protocol::InitPayload;
use crate::protocol::Message;
use crate::protocol::NodeError;

verus! {

/// The payloads of the echo protocol.
pub enum EchoPayLoad {
    Echo { echo: String },
    EchoOk { echo: String },
}

/// One node of the echo service: its identity and its outbound id counter.
pub struct EchoNode {
    pub node_id: String,
    pub msg_counter: usize,
}

/// Everything one handled `echo` request does: the reply carries the same
/// text, swaps source and destination, echoes the request's `msg_id` and is
/// numbered from the counter, which advances by one.
pub open spec fn echo_step(
    pre: EchoNode,
    in_msg: Message<EchoPayLoad>,
    post: EchoNode,
    r: Result<Vec<Message<EchoPayLoad>>, NodeError>,
) -> bool {
    &&& post.node_id@ == pre.node_id@
    &&& post.msg_counter == pre.msg_counter + 1
    &&& r matches Ok(out) && {
        &&& out@.len() == 1
        &&& out@[0].src@ == in_msg.dst@
        &&& out@[0].dst@ == in_msg.src@
        &&& out@[0].body.msg_id == Some(pre.msg_counter)
        &&& out@[0].body.in_reply_to == in_msg.body.msg_id
        &&& (in_msg.body.payload matches EchoPayLoad::Echo { echo } ==> (
            out@[0].body.payload matches EchoPayLoad::EchoOk { echo: reply_echo }
                && reply_echo@ == echo@
        ))
    }
}

impl Node for EchoNode {
    type Payload = EchoPayLoad;

    open spec fn ready(&self) -> bool {
        self.msg_counter < usize::MAX
    }

    /// The echo handler is defined on `echo` requests alone.
    open spec fn accepts(&self, in_msg: &Message<EchoPayLoad>) -> bool {
        in_msg.body.payload is Echo
    }

    open spec fn counter(&self) -> nat {
        self.msg_counter as nat
    }

    open spec fn step(
        pre: Self,
        in_msg: Message<EchoPayLoad>,
        post: Self,
        r: Result<Vec<Message<EchoPayLoad>>, NodeError>,
    ) -> bool {
        echo_step(pre, in_msg, post, r)
    }

    fn from_init(init: InitPayload) -> (node: Self)
        ensures
            init matches InitPayload::Init { node_id, node_ids } ==> node.node_id@ == node_id@,
            node.msg_counter == 1,
    {
        match init {
            InitPayload::Init { node_id, node_ids: _ } => EchoNode { node_id, msg_counter: 1 },
            InitPayload::InitOk { .. } => vstd::pervasive::unreached(),
        }
    }

    /// Answer an `echo` request with `echo_ok` carrying the same text,
    /// correlated to the request and numbered from the counter.
    fn handle_message(&mut self, in_msg: Message<EchoPayLoad>) -> (r: Result<
        Vec<Message<EchoPayLoad>>,
        NodeError,
    >)
        ensures
            echo_step(*old(self), in_msg, *final(self), r),
    {
        let Message { src, dst, body } = in_msg;
        let Body { msg_id, in_reply_to: _, payload } = body;
        let out_msg = match payload {
            EchoPayLoad::Echo { echo } => Message {
                src: dst,
                dst: src,
                body: Body {
                    msg_id: Some(self.msg_counter),
                    in_reply_to: msg_id,
                    payload: EchoPayLoad::EchoOk { echo },
                },
            },
            EchoPayLoad::EchoOk { .. } => vstd::pervasive::unreached(),
        };
        self.msg_counter = self.msg_counter + 1;
        let mut out: Vec<Message<EchoPayLoad>> = Vec::new();
        out.push(out_msg);
        Ok(out)
    }
}

} // verus!
