//! A small framework for nodes of a simulated distributed system that talk in
//! enveloped messages, together with a best-effort broadcast service built on
//! it: deduplicated value storage, neighbour fan-out driven by a topology map,
//! and read-back queries.

mod broadcast;
mod codec;
mod echo;
mod laws;
mod node;
mod protocol;
mod text;
mod topology;
mod unique;

pub use broadcast::BroadcastNode;
pub use broadcast::BroadcastPayload;
pub use broadcast::accept;
pub use broadcast::broadcast_step;
pub use broadcast::fanout_then_ack;
pub use broadcast::is_fanout;
pub use broadcast::is_reply_to;
pub use broadcast::neighbours_of;
pub use broadcast::set_topology;
pub use codec::escape_char;
pub use codec::escape_string;
pub use codec::json_envelope;
pub use codec::json_i32;
pub use codec::json_init_ok;
pub use codec::json_message;
pub use codec::json_opt;
pub use codec::json_string;
pub use codec::json_values;
pub use codec::json_values_rest;
pub use codec::payload_tail;
pub use echo::EchoNode;
pub use echo::EchoPayLoad;
pub use echo::echo_step;
pub use laws::accept_all;
pub use laws::counter_after;
pub use laws::lemma_accept_to_set;
pub use laws::lemma_broadcast_idempotent;
pub use laws::lemma_counter_after;
pub use laws::lemma_monotonic_ids;
pub use laws::lemma_read_after_broadcasts;
pub use laws::lemma_read_completeness;
pub use laws::lemma_store_no_duplicates;
pub use laws::lemma_topology_replace;
pub use node::Node;
pub use node::init_reply;
pub use node::runtime_step;
pub use protocol::Body;
pub use protocol::InitPayload;
pub use protocol::Message;
pub use protocol::NodeError;
pub use text::decimal;
pub use text::digit_char;
pub use text::hex_char;
pub use topology::Topology;
pub use unique::UniqueNode;
pub use unique::UnqiuePayload;
pub use unique::unique_step;
