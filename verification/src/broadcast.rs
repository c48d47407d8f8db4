//! The broadcast service: deduplicated value storage, neighbour fan-out
//! driven by the topology map, and the read and topology request families.

use vstd::prelude::*;

use crate::protocol::Body;
use crate::protocol::InitPayload;
use crate::protocol::Message;
use crate::protocol::NodeError;
use crate::topology::Topology;

verus! {

/// The payloads of the broadcast protocol. The reply variants never arrive
/// as fresh top-level requests from a well-behaved peer.
pub enum BroadcastPayload {
    Broadcast { message: i32 },
    BroadcastOk,
    Read,
    ReadOk { messages: Vec<i32> },
    Topology { topology: Topology },
    TopologyOk,
}

/// One node of the broadcast service: its identity, the counter it draws
/// outbound message ids from, the values accepted so far (each at most once),
/// and the topology map.
pub struct BroadcastNode {
    pub node_id: String,
    pub msg_counter: usize,
    pub messages: Vec<i32>,
    pub topology: Topology,
}

/// The store after one delivery of `v`: unchanged when `v` was already
/// accepted, extended by `v` otherwise.
pub open spec fn accept(store: Seq<i32>, v: i32) -> Seq<i32> {
    if store.contains(v) {
        store
    } else {
        store.push(v)
    }
}

/// The neighbour list fan-out uses: the node's own entry of the topology
/// map, or nothing when the node has no entry.
pub open spec fn neighbours_of(topo: Map<Seq<char>, Seq<Seq<char>>>, node: Seq<char>) -> Seq<
    Seq<char>,
> {
    if topo.dom().contains(node) {
        topo[node]
    } else {
        Seq::empty()
    }
}

/// The topology map after a `topology` request: the supplied map wholesale,
/// whatever stood before.
pub open spec fn set_topology(
    prior: Map<Seq<char>, Seq<Seq<char>>>,
    supplied: Map<Seq<char>, Seq<Seq<char>>>,
) -> Map<Seq<char>, Seq<Seq<char>>> {
    supplied
}

/// A fan-out envelope: a fresh `Broadcast` of `v` from `src` to `dst`,
/// carrying neither `msg_id` nor `in_reply_to`.
pub open spec fn is_fanout(m: Message<BroadcastPayload>, src: Seq<char>, dst: Seq<char>, v: i32) -> bool {
    &&& m.src@ == src
    &&& m.dst@ == dst
    &&& m.body.msg_id is None
    &&& m.body.in_reply_to is None
    &&& m.body.payload == (BroadcastPayload::Broadcast { message: v })
}

/// A reply envelope: source and destination swapped relative to the request,
/// a fresh `msg_id`, and `in_reply_to` echoing the request's `msg_id`.
pub open spec fn is_reply_to(
    m: Message<BroadcastPayload>,
    req_src: Seq<char>,
    req_dst: Seq<char>,
    req_msg_id: Option<usize>,
    id: usize,
) -> bool {
    &&& m.src@ == req_dst
    &&& m.dst@ == req_src
    &&& m.body.msg_id == Some(id)
    &&& m.body.in_reply_to == req_msg_id
}

/// The output of a first-time `broadcast` delivery: one fan-out envelope per
/// neighbour of the receiving node, in topology order, then the
/// `broadcast_ok` reply.
pub open spec fn fanout_then_ack(
    out: Seq<Message<BroadcastPayload>>,
    pre: BroadcastNode,
    req_src: Seq<char>,
    req_dst: Seq<char>,
    req_msg_id: Option<usize>,
    v: i32,
) -> bool {
    let nbrs = neighbours_of(pre.topology@, pre.node_id@);
    &&& out.len() == nbrs.len() + 1
    &&& forall|i: int|
        0 <= i < nbrs.len() ==> is_fanout(#[trigger] out[i], pre.node_id@, nbrs[i], v)
    &&& is_reply_to(out[nbrs.len() as int], req_src, req_dst, req_msg_id, pre.msg_counter)
    &&& out[nbrs.len() as int].body.payload == BroadcastPayload::BroadcastOk
}

/// Everything one call of `handle_message` does, by request kind: how the
/// store, the topology and the counter move, which envelopes come out, and
/// which requests are protocol violations.
pub open spec fn broadcast_step(
    pre: BroadcastNode,
    in_msg: Message<BroadcastPayload>,
    post: BroadcastNode,
    r: Result<Vec<Message<BroadcastPayload>>, NodeError>,
) -> bool {
    &&& post.node_id@ == pre.node_id@
    &&& post.msg_counter == pre.msg_counter + 1
    &&& match in_msg.body.payload {
        BroadcastPayload::Broadcast { message } => {
            &&& post.messages@ == accept(pre.messages@, message)
            &&& post.topology@ == pre.topology@
            &&& if pre.messages@.contains(message) {
                r matches Ok(out) && out@.len() == 0
            } else {
                r matches Ok(out) && fanout_then_ack(
                    out@,
                    pre,
                    in_msg.src@,
                    in_msg.dst@,
                    in_msg.body.msg_id,
                    message,
                )
            }
        },
        BroadcastPayload::Read => {
            &&& post.messages@ == pre.messages@
            &&& post.topology@ == pre.topology@
            &&& r matches Ok(out) && {
                &&& out@.len() == 1
                &&& is_reply_to(out@[0], in_msg.src@, in_msg.dst@, in_msg.body.msg_id, pre.msg_counter)
                &&& out@[0].body.payload matches BroadcastPayload::ReadOk { messages }
                    && messages@ == pre.messages@
            }
        },
        BroadcastPayload::Topology { topology } => {
            &&& post.messages@ == pre.messages@
            &&& post.topology@ == set_topology(pre.topology@, topology@)
            &&& r matches Ok(out) && {
                &&& out@.len() == 1
                &&& is_reply_to(out@[0], in_msg.src@, in_msg.dst@, in_msg.body.msg_id, pre.msg_counter)
                &&& out@[0].body.payload == BroadcastPayload::TopologyOk
            }
        },
        _ => {
            &&& post.messages@ == pre.messages@
            &&& post.topology@ == pre.topology@
            &&& r matches Err(e) && e == NodeError::UnexpectedReply
        },
    }
}

/// Whether the store already holds `x`.
fn contains_value(values: &Vec<i32>, x: i32) -> (r: bool)
    ensures
        r == values@.contains(x),
{
    let mut i: usize = 0;
    while i < values.len()
        invariant
            i <= values@.len(),
            forall|j: int| 0 <= j < i ==> values@[j] != x,
        decreases values@.len() - i,
    {
        if values[i] == x {
            return true;
        }
        i = i + 1;
    }
    false
}

/// A copy of the store, for a `read_ok` reply.
fn clone_values(values: &Vec<i32>) -> (r: Vec<i32>)
    ensures
        r@ == values@,
{
    let mut r: Vec<i32> = Vec::new();
    let mut i: usize = 0;
    while i < values.len()
        invariant
            i <= values@.len(),
            r@ == values@.subrange(0, i as int),
        decreases values@.len() - i,
    {
        r.push(values[i]);
        i = i + 1;
        proof {
            assert(r@ =~= values@.subrange(0, i as int));
        }
    }
    proof {
        assert(r@ =~= values@);
    }
    r
}

impl BroadcastNode {
    /// A fresh node from the `Init` handshake: the assigned identity, the
    /// counter at 1 (0 is reserved for the handshake reply), an empty store
    /// and an empty topology.
    pub fn from_init(init: InitPayload) -> (node: BroadcastNode)
        requires
            init is Init,
        ensures
            init matches InitPayload::Init { node_id, node_ids } ==> node.node_id@ == node_id@,
            node.msg_counter == 1,
            node.messages@ == Seq::<i32>::empty(),
            node.topology@ == Map::<Seq<char>, Seq<Seq<char>>>::empty(),
    {
        match init {
            InitPayload::Init { node_id, node_ids: _ } => BroadcastNode {
                node_id,
                msg_counter: 1,
                messages: Vec::new(),
                topology: Topology::new(),
            },
            InitPayload::InitOk { .. } => vstd::pervasive::unreached(),
        }
    }

    /// One fan-out envelope per neighbour this node has in the topology map,
    /// in topology order; none when the node has no entry (fan-out is then
    /// skipped, which is not an error).
    pub fn broadcast_to_neighbours(&self, message: i32) -> (out: Vec<Message<BroadcastPayload>>)
        ensures
            out@.len() == neighbours_of(self.topology@, self.node_id@).len(),
            forall|i: int|
                0 <= i < out@.len() ==> is_fanout(
                    #[trigger] out@[i],
                    self.node_id@,
                    neighbours_of(self.topology@, self.node_id@)[i],
                    message,
                ),
    {
        let mut out: Vec<Message<BroadcastPayload>> = Vec::new();
        match self.topology.get(&self.node_id) {
            None => out,
            Some(neighbours) => {
                let ghost targets = neighbours_of(self.topology@, self.node_id@);
                let mut i: usize = 0;
                while i < neighbours.len()
                    invariant
                        i <= neighbours@.len(),
                        targets == neighbours.deep_view(),
                        targets.len() == neighbours@.len(),
                        out@.len() == i,
                        forall|j: int|
                            0 <= j < i ==> is_fanout(
                                #[trigger] out@[j],
                                self.node_id@,
                                targets[j],
                                message,
                            ),
                    decreases neighbours@.len() - i,
                {
                    let m = Message {
                        src: self.node_id.clone(),
                        dst: neighbours[i].clone(),
                        body: Body {
                            msg_id: None,
                            in_reply_to: None,
                            payload: BroadcastPayload::Broadcast { message },
                        },
                    };
                    out.push(m);
                    i = i + 1;
                }
                out
            },
        }
    }

    /// One delivery of `broadcast` with value `message`. A duplicate is a
    /// no-op with no output; a first delivery grows the store, fans the value
    /// out to this node's neighbours and acknowledges the sender.
    pub fn handle_broadcast(
        &mut self,
        req_src: String,
        req_dst: String,
        req_msg_id: Option<usize>,
        message: i32,
    ) -> (r: Result<Vec<Message<BroadcastPayload>>, NodeError>)
        ensures
            final(self).node_id@ == old(self).node_id@,
            final(self).msg_counter == old(self).msg_counter,
            final(self).topology@ == old(self).topology@,
            final(self).messages@ == accept(old(self).messages@, message),
            old(self).messages@.contains(message) ==> (r matches Ok(out) && out@.len() == 0),
            !old(self).messages@.contains(message) ==> (r matches Ok(out) && fanout_then_ack(
                out@,
                *old(self),
                req_src@,
                req_dst@,
                req_msg_id,
                message,
            )),
    {
        if contains_value(&self.messages, message) {
            return Ok(Vec::new());
        }
        let mut out = self.broadcast_to_neighbours(message);
        self.messages.push(message);
        let ack = Message {
            src: req_dst,
            dst: req_src,
            body: Body {
                msg_id: Some(self.msg_counter),
                in_reply_to: req_msg_id,
                payload: BroadcastPayload::BroadcastOk,
            },
        };
        out.push(ack);
        Ok(out)
    }

    /// Handle one decoded request and say which envelopes go out. Every call
    /// advances the counter by exactly one, and any reply produced carries
    /// the counter value the call started with.
    pub fn handle_message(&mut self, in_msg: Message<BroadcastPayload>) -> (r: Result<
        Vec<Message<BroadcastPayload>>,
        NodeError,
    >)
        requires
            old(self).msg_counter < usize::MAX,
        ensures
            broadcast_step(*old(self), in_msg, *final(self), r),
    {
        let Message { src, dst, body } = in_msg;
        let Body { msg_id, in_reply_to: _, payload } = body;
        let r = match payload {
            BroadcastPayload::Broadcast { message } => self.handle_broadcast(
                src,
                dst,
                msg_id,
                message,
            ),
            BroadcastPayload::Read => {
                let reply = Message {
                    src: dst,
                    dst: src,
                    body: Body {
                        msg_id: Some(self.msg_counter),
                        in_reply_to: msg_id,
                        payload: BroadcastPayload::ReadOk {
                            messages: clone_values(&self.messages),
                        },
                    },
                };
                let mut out: Vec<Message<BroadcastPayload>> = Vec::new();
                out.push(reply);
                Ok(out)
            },
            BroadcastPayload::Topology { topology } => {
                self.topology = topology;
                let reply = Message {
                    src: dst,
                    dst: src,
                    body: Body {
                        msg_id: Some(self.msg_counter),
                        in_reply_to: msg_id,
                        payload: BroadcastPayload::TopologyOk,
                    },
                };
                let mut out: Vec<Message<BroadcastPayload>> = Vec::new();
                out.push(reply);
                Ok(out)
            },
            _ => Err(NodeError::UnexpectedReply),
        };
        self.msg_counter = self.msg_counter + 1;
        r
    }
}

impl crate::node::Node for BroadcastNode {
    type Payload = BroadcastPayload;

    /// The node can take another message while its id counter has room.
    open spec fn ready(&self) -> bool {
        self.msg_counter < usize::MAX
    }

    /// The broadcast handler is defined on every message; reply variants
    /// arriving as requests are answered with an error, not excluded.
    open spec fn accepts(&self, in_msg: &Message<BroadcastPayload>) -> bool {
        true
    }

    open spec fn counter(&self) -> nat {
        self.msg_counter as nat
    }

    open spec fn step(
        pre: Self,
        in_msg: Message<BroadcastPayload>,
        post: Self,
        r: Result<Vec<Message<BroadcastPayload>>, NodeError>,
    ) -> bool {
        broadcast_step(pre, in_msg, post, r)
    }

    fn from_init(init: InitPayload) -> (node: Self)
        ensures
            init matches InitPayload::Init { node_id, node_ids } ==> node.node_id@ == node_id@,
            node.msg_counter == 1,
            node.messages@ == Seq::<i32>::empty(),
            node.topology@ == Map::<Seq<char>, Seq<Seq<char>>>::empty(),
    {
        BroadcastNode::from_init(init)
    }

    fn handle_message(&mut self, in_msg: Message<BroadcastPayload>) -> (r: Result<
        Vec<Message<BroadcastPayload>>,
        NodeError,
    >)
        ensures
            broadcast_step(*old(self), in_msg, *final(self), r),
    {
        BroadcastNode::handle_message(self, in_msg)
    }
}

} // verus!
