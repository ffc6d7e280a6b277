//! The core of a Chord distributed hash table node.
//!
//! A node lives on a ring of 64-bit identifiers and keeps a predecessor, a
//! bounded list of successors and a finger table. This crate holds the ring
//! arithmetic, the node's routing state and the decisions of the Chord
//! protocol, all of them free of I/O: the caller performs the remote calls
//! and hands their outcomes back.
//!
//! - [`ring`]: the arcs of the identifier ring and the starts of the fingers.
//! - [`address`]: socket addresses and the digest that gives a node its
//!   identifier.
//! - [`node`]: nodes and fingers.
//! - [`store`]: the routing state of a node.
//! - [`client`]: the errors of a remote call.
//! - [`service`]: the protocol operations.
//! - [`pool`]: the bookkeeping of the clients of the remote nodes.
//! - [`schedule`]: the periods of maintenance and the attempts to join.
//! - [`parser`]: nodes and addresses as records on the wire.
//! - [`lists`]: the Cap'n Proto lists that carry an address.
//! - [`proto`]: IP addresses as gRPC messages carry them.

pub mod ring;
pub mod address;
pub mod node;
pub mod store;
pub mod client;
pub mod service;
pub mod pool;
pub mod schedule;
pub mod parser;
pub mod lists;
pub mod proto;

pub use node::Finger;
pub use node::Node;
pub use node::NodeId;
pub use service::NodeService;
