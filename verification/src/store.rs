//! The routing state of a node: its predecessor, its successor list and its
//! finger table.
//!
//! The state has one owner. A program that shares it between tasks puts it
//! behind a lock and holds the lock for one operation at a time; each
//! operation here is what happens under the lock.

use vstd::prelude::*;
use crate::node::Finger;
use crate::node::Node;
use crate::node::initial_fingers;
use crate::ring::ID_BITS;
use crate::ring::between_exclusive;
use crate::ring::finger_start;
use crate::ring::is_between_exclusive;

verus! {

/// What a store holds, as mathematical values.
pub struct StoreView {
    /// The identifier from which the starts of the fingers are derived.
    pub origin: u64,
    /// The replication factor: the most successors the store keeps.
    pub capacity: nat,
    /// The immediate predecessor on the ring, where one is known.
    pub predecessor: Option<Node>,
    /// The finger table, finger 0 first.
    pub fingers: Seq<Finger>,
    /// The successor list, nearest successor first.
    pub successors: Seq<Node>,
}

impl StoreView {
    /// The invariant of a store: there is a finger for every bit of an
    /// identifier, finger `i` starts `2^i` steps after the origin, and the
    /// successor list is neither empty nor longer than the replication
    /// factor.
    pub open spec fn wf(self) -> bool {
        &&& self.fingers.len() == ID_BITS
        &&& forall|i: int|
            0 <= i < self.fingers.len() ==> (#[trigger] self.fingers[i]).start == finger_start(
                self.origin,
                i as nat,
            )
        &&& 1 <= self.successors.len() <= self.capacity
    }
}

/// The first `limit` items of `list`, or all of them where there are fewer.
pub open spec fn truncated(list: Seq<Node>, limit: nat) -> Seq<Node> {
    if list.len() <= limit {
        list
    } else {
        list.take(limit as int)
    }
}

/// The node of the highest finger whose node lies on the open arc from
/// `node_id` to `id`, where there is such a finger.
pub open spec fn closest_preceding(fingers: Seq<Finger>, node_id: u64, id: u64) -> Option<Node>
    decreases fingers.len(),
{
    if fingers.len() == 0 {
        None
    } else if between_exclusive(fingers.last().node.id.0, node_id, id) {
        Some(fingers.last().node)
    } else {
        closest_preceding(fingers.drop_last(), node_id, id)
    }
}

/// What `closest_preceding` picks: where it yields a node, that node belongs
/// to a finger that lies on the arc while no higher finger does; where it
/// yields none, no finger lies on the arc.
pub proof fn lemma_closest_preceding(fingers: Seq<Finger>, node_id: u64, id: u64)
    ensures
        match closest_preceding(fingers, node_id, id) {
            Some(node) => exists|i: int|
                {
                    &&& 0 <= i < fingers.len()
                    &&& #[trigger] fingers[i].node == node
                    &&& between_exclusive(node.id.0, node_id, id)
                    &&& forall|j: int|
                        i < j < fingers.len() ==> !between_exclusive(
                            #[trigger] fingers[j].node.id.0,
                            node_id,
                            id,
                        )
                },
            None => forall|j: int|
                0 <= j < fingers.len() ==> !between_exclusive(
                    #[trigger] fingers[j].node.id.0,
                    node_id,
                    id,
                ),
        },
    decreases fingers.len(),
{
    if fingers.len() == 0 {
    } else if between_exclusive(fingers.last().node.id.0, node_id, id) {
        let i = fingers.len() - 1;
        assert(fingers[i].node == fingers.last().node);
    } else {
        let rest = fingers.drop_last();
        lemma_closest_preceding(rest, node_id, id);
        match closest_preceding(rest, node_id, id) {
            Some(node) => {
                let i = choose|i: int|
                    {
                        &&& 0 <= i < rest.len()
                        &&& #[trigger] rest[i].node == node
                        &&& between_exclusive(node.id.0, node_id, id)
                        &&& forall|j: int|
                            i < j < rest.len() ==> !between_exclusive(
                                #[trigger] rest[j].node.id.0,
                                node_id,
                                id,
                            )
                    };
                assert(fingers[i].node == node);
                assert forall|j: int| i < j < fingers.len() implies !between_exclusive(
                    #[trigger] fingers[j].node.id.0,
                    node_id,
                    id,
                ) by {
                    if j < rest.len() {
                        assert(rest[j] == fingers[j]);
                    }
                }
            },
            None => {
                assert forall|j: int| 0 <= j < fingers.len() implies !between_exclusive(
                    #[trigger] fingers[j].node.id.0,
                    node_id,
                    id,
                ) by {
                    if j < rest.len() {
                        assert(rest[j] == fingers[j]);
                    }
                }
            },
        }
    }
}

/// A node that `closest_preceding` yields lies on the open arc, so it is
/// neither the node at the near end nor the identifier that is looked up.
pub proof fn lemma_closest_preceding_on_arc(fingers: Seq<Finger>, node_id: u64, id: u64)
    ensures
        closest_preceding(fingers, node_id, id) matches Some(node) ==> {
            &&& between_exclusive(node.id.0, node_id, id)
            &&& node.id.0 != node_id
        },
    decreases fingers.len(),
{
    if fingers.len() > 0 && !between_exclusive(fingers.last().node.id.0, node_id, id) {
        lemma_closest_preceding_on_arc(fingers.drop_last(), node_id, id);
    }
}

/// The routing state itself.
pub struct State {
    predecessor: Option<Node>,
    finger_table: Vec<Finger>,
    successor_list: Vec<Node>,
    replication_factor: usize,
    origin: Ghost<u64>,
}

impl View for State {
    type V = StoreView;

    closed spec fn view(&self) -> StoreView {
        StoreView {
            origin: self.origin@,
            capacity: self.replication_factor as nat,
            predecessor: self.predecessor,
            fingers: self.finger_table@,
            successors: self.successor_list@,
        }
    }
}

/// The handle through which the routing state is read and changed.
pub struct Db {
    state: State,
}

impl View for Db {
    type V = StoreView;

    closed spec fn view(&self) -> StoreView {
        self.state@
    }
}

/// The store of a node.
pub struct NodeStore {
    db: Db,
}

impl View for NodeStore {
    type V = StoreView;

    closed spec fn view(&self) -> StoreView {
        self.db@
    }
}

/// A copy of `list`.
fn copy_of<T: Copy>(list: &Vec<T>) -> (copy: Vec<T>)
    ensures
        copy@ == list@,
{
    let mut copy: Vec<T> = Vec::with_capacity(list.len());
    let mut i: usize = 0;
    while i < list.len()
        invariant
            i <= list.len(),
            copy@ == list@.take(i as int),
        decreases list.len() - i,
    {
        copy.push(list[i]);
        i = i + 1;
    }
    assert(list@.take(list.len() as int) == list@);
    copy
}

impl NodeStore {
    /// Creates the store of a node whose only known successor is `successor`
    /// and which keeps at most `replication_factor` successors.
    pub fn new(successor: Node, replication_factor: usize) -> (store: NodeStore)
        requires
            replication_factor >= 1,
        ensures
            store@.wf(),
            store@ == (StoreView {
                origin: successor.id.0,
                capacity: replication_factor as nat,
                predecessor: None,
                fingers: initial_fingers(successor.id.0, successor),
                successors: seq![successor],
            }),
    {
        NodeStore { db: Db::new(successor, replication_factor) }
    }

    /// The handle for reading the state.
    pub fn db(&self) -> (db: &Db)
        ensures
            db@ == self@,
    {
        &self.db
    }

    /// The handle for changing the state.
    pub fn db_mut(&mut self) -> (db: &mut Db)
        ensures
            db@ == old(self)@,
            final(self)@ == final(db)@,
    {
        &mut self.db
    }
}

impl Db {
    /// Creates the state of a node whose only known successor is `node` and
    /// which keeps at most `replication_factor` successors: no predecessor,
    /// every finger pointing at `node`, and `node` alone in the successor
    /// list.
    pub fn new(node: Node, replication_factor: usize) -> (db: Db)
        requires
            replication_factor >= 1,
        ensures
            db@.wf(),
            db@ == (StoreView {
                origin: node.id.0,
                capacity: replication_factor as nat,
                predecessor: None,
                fingers: initial_fingers(node.id.0, node),
                successors: seq![node],
            }),
    {
        let mut successors: Vec<Node> = Vec::with_capacity(replication_factor);
        successors.push(node);
        let db = Db {
            state: State {
                predecessor: None,
                finger_table: Finger::init_finger_table(node),
                successor_list: successors,
                replication_factor,
                origin: Ghost(node.id.0),
            },
        };
        assert(db@.successors =~= seq![node]);
        db
    }

    /// Stores `predecessor` as the predecessor, whatever was stored before.
    pub fn set_predecessor(&mut self, predecessor: Node)
        ensures
            final(self)@ == (StoreView { predecessor: Some(predecessor), ..old(self)@ }),
            old(self)@.wf() ==> final(self)@.wf(),
    {
        self.state.predecessor = Some(predecessor);
    }

    /// Forgets the predecessor.
    pub fn unset_predecessor(&mut self)
        ensures
            final(self)@ == (StoreView { predecessor: None, ..old(self)@ }),
            old(self)@.wf() ==> final(self)@.wf(),
    {
        self.state.predecessor = None;
    }

    /// The predecessor, where one is known.
    pub fn predecessor(&self) -> (r: Option<Node>)
        ensures
            r == self@.predecessor,
    {
        self.shared_state().predecessor
    }

    /// Replaces the nearest successor and leaves the rest of the successor
    /// list as it is.
    pub fn set_successor(&mut self, successor: Node)
        requires
            old(self)@.wf(),
        ensures
            final(self)@.wf(),
            final(self)@ == (StoreView {
                successors: old(self)@.successors.update(0, successor),
                ..old(self)@
            }),
    {
        self.state.successor_list.set(0, successor);
    }

    /// The nearest successor.
    pub fn successor(&self) -> (r: Node)
        requires
            self@.wf(),
        ensures
            r == self@.successors[0],
    {
        self.shared_state().successor_list[0]
    }

    /// Replaces the successor list by `successor_list`, cut to the
    /// replication factor where it is longer.
    pub fn set_successor_list(&mut self, successor_list: Vec<Node>)
        requires
            old(self)@.wf(),
            successor_list@.len() >= 1,
        ensures
            final(self)@.wf(),
            final(self)@ == (StoreView {
                successors: truncated(successor_list@, old(self)@.capacity),
                ..old(self)@
            }),
            final(self)@.successors.len() == if successor_list@.len() <= old(self)@.capacity {
                successor_list@.len()
            } else {
                old(self)@.capacity
            },
            forall|i: int|
                0 <= i < final(self)@.successors.len() ==> final(self)@.successors[i]
                    == successor_list@[i],
    {
        let capacity: usize = self.state.replication_factor;
        let items: usize = if successor_list.len() < capacity {
            successor_list.len()
        } else {
            capacity
        };
        self.state.successor_list.clear();
        let mut i: usize = 0;
        while i < items
            invariant
                i <= items,
                items <= successor_list.len(),
                self.state.successor_list@ == successor_list@.take(i as int),
                self.state.predecessor == old(self).state.predecessor,
                self.state.finger_table == old(self).state.finger_table,
                self.state.replication_factor == old(self).state.replication_factor,
                self.state.origin == old(self).state.origin,
            decreases items - i,
        {
            self.state.successor_list.push(successor_list[i]);
            i = i + 1;
        }
        assert(successor_list@.take(successor_list@.len() as int) == successor_list@);
    }

    /// A copy of the successor list.
    pub fn successor_list(&self) -> (r: Vec<Node>)
        ensures
            r@ == self@.successors,
    {
        copy_of(&self.shared_state().successor_list)
    }

    /// Looks for the node that most closely precedes `id` among the fingers
    /// of the node `node_id`: the fingers are tried from the highest down,
    /// and the first whose node lies on the open arc from `node_id` to `id`
    /// gives the answer.
    pub fn closest_preceding_node(&self, node_id: u64, id: u64) -> (r: Option<Node>)
        ensures
            r == closest_preceding(self@.fingers, node_id, id),
    {
        let state = self.shared_state();
        let mut i: usize = state.finger_table.len();
        assert(state.finger_table@.take(i as int) == state.finger_table@);
        while i > 0
            invariant
                i <= state.finger_table.len(),
                state.finger_table@ == self@.fingers,
                closest_preceding(state.finger_table@, node_id, id) == closest_preceding(
                    state.finger_table@.take(i as int),
                    node_id,
                    id,
                ),
            decreases i,
        {
            let finger: Finger = state.finger_table[i - 1];
            proof {
                let upto = state.finger_table@.take(i as int);
                assert(upto.last() == finger);
                assert(upto.drop_last() == state.finger_table@.take(i - 1));
            }
            if is_between_exclusive(finger.node.id.0, node_id, id) {
                return Some(finger.node);
            }
            i = i - 1;
        }
        None
    }

    /// Points the finger with index `finger_id` at `node`. The finger's
    /// start stays as it is.
    pub fn update_finger(&mut self, finger_id: usize, node: Node)
        requires
            old(self)@.wf(),
            finger_id < ID_BITS,
        ensures
            final(self)@.wf(),
            final(self)@ == (StoreView {
                fingers: old(self)@.fingers.update(
                    finger_id as int,
                    Finger { start: old(self)@.fingers[finger_id as int].start, node },
                ),
                ..old(self)@
            }),
    {
        let start: u64 = self.state.finger_table[finger_id].start;
        self.state.finger_table.set(finger_id, Finger { start, node });
    }

    /// A copy of the finger table.
    pub fn finger_table(&self) -> (r: Vec<Finger>)
        ensures
            r@ == self@.fingers,
    {
        copy_of(&self.shared_state().finger_table)
    }

    /// The state behind this handle.
    pub fn shared_state(&self) -> (state: &State)
        ensures
            state@ == self@,
    {
        &self.state
    }
}

} // verus!
