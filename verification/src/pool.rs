//! The bookkeeping of a pool of clients, one for each remote node.
//!
//! Creating a client takes a remote call, so the pool does not create one
//! itself. It tells each caller whether the client is there, is being made by
//! someone else, or is the caller's to make; the caller that makes it hands
//! it in. Slots are never given up, so each node is told to make the client
//! of a given node at most once.

use vstd::prelude::*;
use std::collections::HashMap;
use vstd::std_specs::hash::group_hash_axioms;
use crate::address::SocketAddress;
use crate::node::Node;
use crate::node::NodeId;

verus! {

broadcast use group_hash_axioms;

/// The slot of one remote node.
pub enum Slot<C> {
    /// The client is being made.
    Pending,
    /// The client.
    Ready(C),
}

/// What a caller that asks for a client is told.
#[derive(Clone, Copy, Debug, PartialEq, Eq)]
pub enum Admission {
    /// The client is in the pool.
    Cached,
    /// Another caller is making the client.
    Wait,
    /// The caller is to make the client, for this address, and hand it in.
    Init(SocketAddress),
}

/// The slots of the remote nodes, by identifier.
pub struct ClientsPool<C> {
    slots: HashMap<u64, Slot<C>>,
}

impl<C> View for ClientsPool<C> {
    type V = Map<u64, Slot<C>>;

    closed spec fn view(&self) -> Map<u64, Slot<C>> {
        self.slots@
    }
}

impl<C> Default for ClientsPool<C> {
    /// A pool without slots.
    fn default() -> (pool: ClientsPool<C>)
        ensures
            pool@ == Map::<u64, Slot<C>>::empty(),
    {
        ClientsPool::new()
    }
}

impl<C> ClientsPool<C> {
    /// A pool without slots.
    pub fn new() -> (pool: ClientsPool<C>)
        ensures
            pool@ == Map::<u64, Slot<C>>::empty(),
    {
        ClientsPool { slots: HashMap::new() }
    }

    /// Asks for the client of `node`. Where the node has no slot yet, it gets
    /// one and the caller is told to make the client; no later caller is told
    /// so for this node. Where it has one, the pool stays as it is.
    pub fn get_or_init(&mut self, node: Node) -> (r: Admission)
        ensures
            final(self)@.contains_key(node.id.0),
            old(self)@.dom().subset_of(final(self)@.dom()),
            r is Init <==> !old(self)@.contains_key(node.id.0),
            if old(self)@.contains_key(node.id.0) {
                &&& final(self)@ == old(self)@
                &&& r == match old(self)@[node.id.0] {
                    Slot::Pending => Admission::Wait,
                    Slot::Ready(_) => Admission::Cached,
                }
            } else {
                &&& final(self)@ == old(self)@.insert(node.id.0, Slot::Pending)
                &&& r == Admission::Init(node.addr)
            },
    {
        let key: u64 = node.id.0;
        match self.slots.get(&key) {
            Some(Slot::Ready(_)) => Admission::Cached,
            Some(Slot::Pending) => Admission::Wait,
            None => {
                self.slots.insert(key, Slot::Pending);
                Admission::Init(node.addr)
            },
        }
    }

    /// Hands in the client of the node `id`. Every caller that asks for the
    /// node from now on finds this client.
    pub fn install(&mut self, id: NodeId, client: C)
        ensures
            final(self)@ == old(self)@.insert(id.0, Slot::Ready(client)),
            old(self)@.dom().subset_of(final(self)@.dom()),
    {
        self.slots.insert(id.0, Slot::Ready(client));
    }

    /// The client of the node `id`, where it is in the pool.
    pub fn get(&self, id: NodeId) -> (r: Option<&C>)
        ensures
            match r {
                Some(client) => self@.contains_key(id.0) && self@[id.0] == Slot::Ready(*client),
                None => !self@.contains_key(id.0) || self@[id.0] is Pending,
            },
    {
        let key: u64 = id.0;
        match self.slots.get(&key) {
            Some(Slot::Ready(client)) => Some(client),
            Some(Slot::Pending) => None,
            None => None,
        }
    }

    /// The number of nodes that have a slot.
    pub fn len(&self) -> (r: usize)
        ensures
            r == self@.len(),
    {
        self.slots.len()
    }
}

} // verus!
