//! A minimal node runtime for a scripted distributed-systems test harness:
//! envelope types and reply derivation, an init handshake, three node
//! behaviours (echo, unique-id generation, gossip-based broadcast) and the
//! lifecycle discipline of the dispatch loop.  Behaviours are pure with
//! respect to anything outside their state: they take an inbound envelope
//! and return the envelopes to send, so the transport around them stays a
//! thin, unverified shell.

pub mod broadcast;
pub mod digits;
pub mod echo;
pub mod idset;
pub mod laws;
pub mod node;
pub mod protocol;
pub mod runtime;
pub mod unique;

pub use broadcast::BroadcastNode;
pub use echo::EchoNode;
pub use node::Node;
pub use runtime::Lifecycle;
pub use runtime::Phase;
pub use unique::UniqueNode;

pub use protocol::Body;
pub use protocol::BroadcastPayload;
pub use protocol::EchoPayload;
pub use protocol::Init;
pub use protocol::InitPayload;
pub use protocol::Message;
pub use protocol::NodeError;
pub use protocol::UniquePayload;
