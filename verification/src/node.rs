//! The node runtime's decisions: the initialization handshake and the
//! per-message dispatch step. Reading and writing the byte streams stays
//! outside; this module says what the loop does with each decoded message.

use vstd::prelude::*;

use crate::protocol::Body;
use crate::protocol::InitPayload;
use crate::protocol::Message;
use crate::protocol::NodeError;

verus! {

/// A protocol handler the runtime drives: built once from the `Init`
/// handshake, then handed every decoded message in turn.
pub trait Node: Sized {
    type Payload;

    /// Whether the node can take another message (its id counter has room).
    spec fn ready(&self) -> bool;

    /// Which messages the node's handler is defined on.
    spec fn accepts(&self, in_msg: &Message<Self::Payload>) -> bool;

    /// The counter the node draws outbound message ids from.
    spec fn counter(&self) -> nat;

    /// The node's transition relation: how one handled message moves the
    /// state and which envelopes — or which error — come back.
    spec fn step(
        pre: Self,
        in_msg: Message<Self::Payload>,
        post: Self,
        r: Result<Vec<Message<Self::Payload>>, NodeError>,
    ) -> bool;

    /// Build the node's state from the `Init` payload. The counter starts at
    /// 1: 0 is reserved for the handshake reply.
    fn from_init(init: InitPayload) -> (node: Self)
        requires
            init is Init,
        ensures
            node.counter() == 1,
    ;

    /// Handle one decoded message; the returned envelopes are written out in
    /// order, and an error is reported on the diagnostic channel. Every call
    /// obeys the node's transition relation and advances the counter by
    /// exactly one, so the ids drawn from it are never reused.
    fn handle_message(&mut self, in_msg: Message<Self::Payload>) -> (r: Result<
        Vec<Message<Self::Payload>>,
        NodeError,
    >)
        requires
            old(self).ready(),
            old(self).accepts(&in_msg),
        ensures
            final(self).counter() == old(self).counter() + 1,
            Self::step(*old(self), in_msg, *final(self), r),
    ;
}

/// The handshake: the first inbound message must be an `Init` request with a
/// `msg_id`. On success, hand back the assigned node id and the `init_ok`
/// reply, which always carries the reserved `msg_id` 0 and echoes the
/// request's `msg_id`; anything else is a fatal startup error.
pub fn init_reply(init_msg: &Message<InitPayload>) -> (r: Result<
    (String, Message<InitPayload>),
    NodeError,
>)
    ensures
        match r {
            Ok(pair) => {
                &&& init_msg.body.payload matches InitPayload::Init { node_id, node_ids }
                    && pair.0@ == node_id@
                &&& pair.1.src@ == pair.0@
                &&& pair.1.dst@ == init_msg.src@
                &&& pair.1.body.msg_id == Some(0usize)
                &&& pair.1.body.in_reply_to == init_msg.body.msg_id
                &&& init_msg.body.msg_id matches Some(n) && pair.1.body.payload
                    == (InitPayload::InitOk { in_reply_to: n })
            },
            Err(e) => {
                &&& e == NodeError::MalformedInit
                &&& !(init_msg.body.payload is Init && init_msg.body.msg_id is Some)
            },
        },
{
    match &init_msg.body.payload {
        InitPayload::Init { node_id, node_ids: _ } => match init_msg.body.msg_id {
            Some(n) => {
                let reply = Message {
                    src: node_id.clone(),
                    dst: init_msg.src.clone(),
                    body: Body {
                        msg_id: Some(0),
                        in_reply_to: Some(n),
                        payload: InitPayload::InitOk { in_reply_to: n },
                    },
                };
                Ok((node_id.clone(), reply))
            },
            None => Err(NodeError::MalformedInit),
        },
        InitPayload::InitOk { .. } => Err(NodeError::MalformedInit),
    }
}

/// One turn of the read loop after the handshake. `decoded` is `None` when
/// the inbound line failed to decode: the line is discarded, the failure is
/// reported, the node is untouched and the loop goes on — a malformed peer
/// message never takes the node down. A decoded message is dispatched to the
/// handler: every reply the handler produces is handed back for writing, in
/// order, and a handler error comes back in the failure slot, with no
/// protocol output.
pub fn runtime_step<N: Node>(node: &mut N, decoded: Option<Message<N::Payload>>) -> (r: (
    Vec<Message<N::Payload>>,
    Option<NodeError>,
))
    requires
        old(node).ready(),
        decoded matches Some(m) ==> old(node).accepts(&m),
    ensures
        decoded is None ==> {
            &&& *final(node) == *old(node)
            &&& r.0@.len() == 0
            &&& r.1 == Some(NodeError::DecodeFailed)
        },
        decoded matches Some(m) ==> {
            &&& final(node).counter() == old(node).counter() + 1
            &&& match r.1 {
                None => N::step(*old(node), m, *final(node), Ok(r.0)),
                Some(e) => N::step(*old(node), m, *final(node), Err(e)) && r.0@.len() == 0,
            }
        },
        r.1 is Some ==> r.0@.len() == 0,
{
    match decoded {
        None => (Vec::new(), Some(NodeError::DecodeFailed)),
        Some(in_msg) => match node.handle_message(in_msg) {
            Ok(out) => (out, None),
            Err(e) => (Vec::new(), Some(e)),
        },
    }
}

} // verus!
