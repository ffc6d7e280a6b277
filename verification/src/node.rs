//! Nodes of the ring and the entries of a finger table.

use vstd::prelude::*;
use vstd::arithmetic::power2::pow2;
use vstd::arithmetic::power2::lemma2_to64;
use vstd::arithmetic::power2::lemma_pow2_strictly_increases;
use vstd::bits::lemma_u64_shl_is_mul;
use vstd::std_specs::convert::FromSpecImpl;
use crate::address::SocketAddress;
use crate::address::address_digest;
use crate::address::hash_address;
use crate::ring::ID_BITS;
use crate::ring::between_exclusive;
use crate::ring::between_half_open;
use crate::ring::finger_start;
use crate::ring::is_between_exclusive;
use crate::ring::is_between_half_open;

verus! {

/// An identifier on the ring.
#[derive(Clone, Copy, Debug, PartialEq, Eq, PartialOrd, Ord, Hash, Structural)]
pub struct NodeId(pub u64);

impl From<u64> for NodeId {
    fn from(value: u64) -> (r: NodeId)
        ensures
            r == NodeId(value),
    {
        NodeId(value)
    }
}

impl FromSpecImpl<u64> for NodeId {
    open spec fn obeys_from_spec() -> bool {
        true
    }

    open spec fn from_spec(value: u64) -> NodeId {
        NodeId(value)
    }
}

impl From<NodeId> for u64 {
    fn from(id: NodeId) -> (r: u64)
        ensures
            r == id.0,
    {
        id.0
    }
}

impl FromSpecImpl<NodeId> for u64 {
    open spec fn obeys_from_spec() -> bool {
        true
    }

    open spec fn from_spec(id: NodeId) -> u64 {
        id.0
    }
}

impl From<SocketAddress> for NodeId {
    /// The identifier of the node that listens on `addr`.
    fn from(addr: SocketAddress) -> (r: NodeId)
        ensures
            r == NodeId(address_digest(addr)),
    {
        NodeId(hash_address(addr))
    }
}

impl FromSpecImpl<SocketAddress> for NodeId {
    open spec fn obeys_from_spec() -> bool {
        true
    }

    open spec fn from_spec(addr: SocketAddress) -> NodeId {
        NodeId(address_digest(addr))
    }
}

/// A node of the ring: its identifier and the address it listens on.
#[derive(Clone, Copy, Debug)]
pub struct Node {
    pub id: NodeId,
    pub addr: SocketAddress,
}

impl PartialEq for Node {
    /// Two nodes are equal when their identifiers are.
    fn eq(&self, other: &Node) -> (r: bool) {
        self.id.0 == other.id.0
    }
}

impl vstd::std_specs::cmp::PartialEqSpecImpl for Node {
    open spec fn obeys_eq_spec() -> bool {
        true
    }

    open spec fn eq_spec(&self, other: &Node) -> bool {
        self.id.0 == other.id.0
    }
}

impl Node {
    /// The node that listens on `addr`, with the identifier that the address
    /// hashes to.
    pub fn new(addr: SocketAddress) -> (r: Node)
        ensures
            r == (Node { id: NodeId(address_digest(addr)), addr }),
    {
        Node { id: NodeId(hash_address(addr)), addr }
    }

    /// The node with the given identifier and address.
    pub fn with_id(id: NodeId, addr: SocketAddress) -> (r: Node)
        ensures
            r == (Node { id, addr }),
    {
        Node { id, addr }
    }

    /// The node's identifier.
    pub fn id(&self) -> (r: NodeId)
        ensures
            r == self.id,
    {
        self.id
    }

    /// The address the node listens on.
    pub fn addr(&self) -> (r: SocketAddress)
        ensures
            r == self.addr,
    {
        self.addr
    }

    /// Whether `id` lies on the arc that leads clockwise from `node1` to
    /// `node2`, with `node2` included: the identifiers that `node2` answers
    /// for when `node1` is its predecessor.
    pub fn is_between_on_ring(id: u64, node1: u64, node2: u64) -> (r: bool)
        ensures
            r == between_half_open(id, node1, node2),
    {
        is_between_half_open(id, node1, node2)
    }

    /// Whether `id` lies on the arc that leads clockwise from `node1` to
    /// `node2`, both ends excluded.
    pub fn is_between_on_ring_exclusive(id: u64, node1: u64, node2: u64) -> (r: bool)
        ensures
            r == between_exclusive(id, node1, node2),
    {
        is_between_exclusive(id, node1, node2)
    }
}

/// An entry of the finger table: the identifier at which the finger starts
/// and the best known successor of that identifier.
#[derive(Clone, Copy, Debug)]
pub struct Finger {
    pub start: u64,
    pub node: Node,
}

/// The finger table of the node `origin` in which every finger points at
/// `node`.
pub open spec fn initial_fingers(origin: u64, node: Node) -> Seq<Finger> {
    Seq::new(ID_BITS as nat, |i: int| Finger { start: finger_start(origin, i as nat), node })
}

impl Finger {
    /// Number of entries of a finger table, one for each bit of an identifier.
    pub const FINGER_TABLE_SIZE: usize = 64;

    /// The identifier at which this finger starts.
    pub fn start(&self) -> (r: u64)
        ensures
            r == self.start,
    {
        self.start
    }

    /// The best known successor of the finger's start.
    pub fn node(&self) -> (r: Node)
        ensures
            r == self.node,
    {
        self.node
    }

    /// The start of the finger with the given index of the node `node_id`:
    /// `(node_id + 2^index) mod 2^64`.
    pub fn finger_id(node_id: u64, index: usize) -> (r: u64)
        requires
            index < ID_BITS,
        ensures
            r == finger_start(node_id, index as nat),
    {
        let shift: u64 = index as u64;
        let step: u64 = 1u64 << shift;
        proof {
            lemma_pow2_strictly_increases(index as nat, 64);
            lemma2_to64();
            lemma_u64_shl_is_mul(1u64, shift);
            assert(step == pow2(index as nat));
        }
        node_id.wrapping_add(step)
    }

    /// The finger table of a node that knows no node but `node`: the starts
    /// are those of `node`, and every finger points at it.
    pub fn init_finger_table(node: Node) -> (table: Vec<Finger>)
        ensures
            table@ == initial_fingers(node.id.0, node),
    {
        let mut table: Vec<Finger> = Vec::with_capacity(ID_BITS);
        let mut i: usize = 0;
        while i < ID_BITS
            invariant
                i <= ID_BITS,
                table@ == initial_fingers(node.id.0, node).take(i as int),
            decreases ID_BITS - i,
        {
            let start: u64 = Finger::finger_id(node.id.0, i);
            table.push(Finger { start, node });
            i = i + 1;
        }
        assert(initial_fingers(node.id.0, node).take(ID_BITS as int) == initial_fingers(
            node.id.0,
            node,
        ));
        table
    }
}

} // verus!
