//! The wire model: an envelope around a body, the body around a payload, and
//! the initialization payload every node understands.

use vstd::prelude::*;

verus! {

/// The outer record of every message: who sent it, who it is for, and a body.
/// A reply is always a fresh envelope with source and destination swapped
/// relative to the message that triggered it.
pub struct Message<P> {
    pub src: String,
    pub dst: String,
    pub body: Body<P>,
}

/// Correlation fields plus the protocol payload. `msg_id` is set by a sender
/// that expects correlation; `in_reply_to` echoes the triggering message's
/// `msg_id`.
pub struct Body<P> {
    pub msg_id: Option<usize>,
    pub in_reply_to: Option<usize>,
    pub payload: P,
}

/// The initialization handshake: the first inbound message must carry `Init`,
/// and the node answers with `InitOk`.
pub enum InitPayload {
    Init { node_id: String, node_ids: Vec<String> },
    InitOk { in_reply_to: usize },
}

/// What can go wrong while a node handles a message. None of these is fatal
/// to the dispatch loop; each is reported on a diagnostic channel and the
/// loop moves to the next message.
#[derive(Debug)]
pub enum NodeError {
    /// The first inbound message was not a well-formed `Init` request.
    MalformedInit,
    /// An inbound line after the handshake did not decode to a message; the
    /// line is discarded and the loop continues.
    DecodeFailed,
    /// A reply variant (`broadcast_ok`, `read_ok`, `topology_ok`, ...) arrived
    /// as an unsolicited top-level request.
    UnexpectedReply,
}

} // verus!
