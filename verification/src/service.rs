//! The Chord protocol as seen from one node.
//!
//! Every operation that needs a remote node is split where the remote call
//! stands: the service says which node to ask, the caller makes the call, and
//! the service takes the outcome and decides what becomes of the state.

use vstd::prelude::*;
use vstd::string::StringExecFns;
use vstd::std_specs::convert::FromSpecImpl;
use crate::address::SocketAddress;
use crate::address::address_digest;
use crate::address::hash_address;
use crate::client::ClientError;
use crate::client::ClientErrorView;
use crate::node::Finger;
use crate::node::Node;
use crate::node::NodeId;
use crate::node::initial_fingers;
use crate::ring::ID_BITS;
use crate::ring::between_exclusive;
use crate::ring::between_half_open;
use crate::ring::clockwise;
use crate::ring::lemma_exclusive_is_closer;
use crate::ring::finger_start;
use crate::ring::is_between_exclusive;
use crate::ring::is_between_half_open;
use crate::store::Db;
use crate::store::NodeStore;
use crate::store::StoreView;
use crate::store::closest_preceding;
use crate::store::lemma_closest_preceding_on_arc;
use crate::store::truncated;

verus! {

/// An error of the service.
#[derive(Clone, Debug, PartialEq, Eq)]
pub enum ServiceError {
    /// A failure together with the text that describes it.
    Unexpected(String),
}

impl View for ServiceError {
    type V = Seq<char>;

    /// The text that describes the error.
    open spec fn view(&self) -> Seq<char> {
        match self {
            ServiceError::Unexpected(message) => message@,
        }
    }
}

/// The text of the service error that stands for a client error.
pub open spec fn client_failure(err: ClientErrorView) -> Seq<char> {
    "Client error: "@ + err.message()
}

impl ServiceError {
    /// The text that describes the error.
    pub fn to_string(&self) -> (text: String)
        ensures
            text@ == self@,
    {
        match self {
            ServiceError::Unexpected(message) => message.clone(),
        }
    }
}

impl From<ClientError> for ServiceError {
    /// Wraps a client error, keeping its text.
    fn from(err: ClientError) -> (r: ServiceError)
        ensures
            r@ == client_failure(err@),
    {
        let text = err.to_string();
        ServiceError::Unexpected(String::from_str("Client error: ").concat(text.as_str()))
    }
}

impl FromSpecImpl<ClientError> for ServiceError {
    /// The conversion is specified by the text of its result, not as a value.
    open spec fn obeys_from_spec() -> bool {
        false
    }

    open spec fn from_spec(err: ClientError) -> ServiceError {
        ServiceError::Unexpected(arbitrary())
    }
}

/// A call that the service wants made to a remote node.
#[derive(Clone, Copy, Debug)]
pub enum Request {
    /// Ask `peer` for the successor of `id`.
    FindSuccessor { peer: Node, id: NodeId },
    /// Ask `peer` for its predecessor.
    Predecessor { peer: Node },
    /// Ask `peer` for its successor list.
    SuccessorList { peer: Node },
    /// Tell `peer` that `candidate` may be its predecessor.
    Notify { peer: Node, candidate: Node },
    /// Ask `peer` whether it is there.
    Ping { peer: Node },
}

impl Request {
    /// The node that the call goes to.
    pub open spec fn spec_peer(self) -> Node {
        match self {
            Request::FindSuccessor { peer, .. } => peer,
            Request::Predecessor { peer } => peer,
            Request::SuccessorList { peer } => peer,
            Request::Notify { peer, .. } => peer,
            Request::Ping { peer } => peer,
        }
    }

    /// The node that the call goes to.
    #[verifier::when_used_as_spec(spec_peer)]
    pub fn peer(self) -> (r: Node)
        ensures
            r == self.spec_peer(),
    {
        match self {
            Request::FindSuccessor { peer, .. } => peer,
            Request::Predecessor { peer } => peer,
            Request::SuccessorList { peer } => peer,
            Request::Notify { peer, .. } => peer,
            Request::Ping { peer } => peer,
        }
    }
}

/// Where the successor of an identifier is to be had.
#[derive(Clone, Copy, Debug)]
pub enum Lookup {
    /// The successor is known: it is this node.
    Found(Node),
    /// A node closer to the identifier is to be asked: this is the call.
    Forward(Request),
}

/// What a service holds, as mathematical values.
pub struct ServiceView {
    pub id: u64,
    pub addr: SocketAddress,
    pub store: StoreView,
}

impl ServiceView {
    /// The invariant of a service: its store is well formed and the fingers
    /// start from the service's own identifier.
    pub open spec fn wf(self) -> bool {
        self.store.wf() && self.store.origin == self.id
    }

    /// The node that the service runs.
    pub open spec fn node(self) -> Node {
        Node { id: NodeId(self.id), addr: self.addr }
    }

    /// The nearest successor.
    pub open spec fn successor(self) -> Node {
        self.store.successors[0]
    }

    /// The predecessor, where one is known, is another node than this one.
    /// The service does not see to it: it holds as long as no node is told
    /// of itself as a candidate.
    pub open spec fn predecessor_is_another(self) -> bool {
        self.store.predecessor matches Some(known) ==> known.id.0 != self.id
    }

    /// The node that most closely precedes `id` as far as the fingers tell,
    /// or the service's own node where no finger precedes it.
    pub open spec fn closest_preceding_node(self, id: u64) -> Node {
        match closest_preceding(self.store.fingers, self.id, id) {
            Some(node) => node,
            None => self.node(),
        }
    }

    /// Where the successor of `id` is to be had. Identifiers up to the
    /// nearest successor belong to that successor. For any other identifier
    /// the closest preceding node is asked, unless that is this node itself,
    /// which then knows no better than its successor.
    pub open spec fn route(self, id: u64) -> Lookup {
        if between_half_open(id, self.id, self.successor().id.0) {
            Lookup::Found(self.successor())
        } else if self.closest_preceding_node(id).id.0 == self.id {
            Lookup::Found(self.successor())
        } else {
            Lookup::Forward(
                Request::FindSuccessor { peer: self.closest_preceding_node(id), id: NodeId(id) },
            )
        }
    }

    /// The predecessor after `candidate` has announced itself: the candidate
    /// where no predecessor is known or where the candidate lies between the
    /// known predecessor and this node, else the known predecessor.
    pub open spec fn notified(self, candidate: Node) -> Option<Node> {
        match self.store.predecessor {
            None => Some(candidate),
            Some(known) => if between_exclusive(candidate.id.0, known.id.0, self.id) {
                Some(candidate)
            } else {
                Some(known)
            },
        }
    }

    /// The nearest successor after the present successor has reported `seen`
    /// as its predecessor: the reported node where it lies between this node
    /// and the present successor, else the present successor.
    pub open spec fn stabilized(self, seen: Option<Node>) -> Node {
        match seen {
            Some(x) => if between_exclusive(x.id.0, self.id, self.successor().id.0) {
                x
            } else {
                self.successor()
            },
            None => self.successor(),
        }
    }
}

/// The service of one node: its identity and its routing state.
pub struct NodeService {
    id: NodeId,
    addr: SocketAddress,
    store: NodeStore,
}

impl View for NodeService {
    type V = ServiceView;

    closed spec fn view(&self) -> ServiceView {
        ServiceView { id: self.id.0, addr: self.addr, store: self.store@ }
    }
}

/// Hands the outcome of a remote call on: an answer as it is, a client error
/// as the service error that stands for it.
pub fn surface<T>(answer: Result<T, ClientError>) -> (r: Result<T, ServiceError>)
    ensures
        match answer {
            Ok(value) => r == Ok::<T, ServiceError>(value),
            Err(err) => r matches Err(e) && e@ == client_failure(err@),
        },
{
    match answer {
        Ok(value) => Ok(value),
        Err(err) => Err(ServiceError::from(err)),
    }
}

impl NodeService {
    /// Creates the service of the node that listens on `socket_addr`. Its
    /// identifier is the digest of the address; the node starts as a ring of
    /// its own, with itself as successor.
    pub fn new(socket_addr: SocketAddress, replication_factor: usize) -> (service: NodeService)
        requires
            replication_factor >= 1,
        ensures
            service@.wf(),
            service@ == NodeService::initial(
                address_digest(socket_addr),
                socket_addr,
                replication_factor,
            ),
    {
        let id = NodeId(hash_address(socket_addr));
        NodeService::with_id(id, socket_addr, replication_factor)
    }

    /// The state in which a service starts.
    pub open spec fn initial(id: u64, addr: SocketAddress, replication_factor: usize)
        -> ServiceView {
        let node = Node { id: NodeId(id), addr };
        ServiceView {
            id,
            addr,
            store: StoreView {
                origin: id,
                capacity: replication_factor as nat,
                predecessor: None,
                fingers: initial_fingers(id, node),
                successors: seq![node],
            },
        }
    }

    /// Creates the service of the node with the given identifier and address.
    pub fn with_id(id: NodeId, addr: SocketAddress, replication_factor: usize) -> (service:
        NodeService)
        requires
            replication_factor >= 1,
        ensures
            service@.wf(),
            service@ == NodeService::initial(id.0, addr, replication_factor),
    {
        let store = NodeStore::new(Node::with_id(id, addr), replication_factor);
        NodeService { id, addr, store }
    }

    /// The identifier of this node.
    pub fn id(&self) -> (r: NodeId)
        ensures
            r.0 == self@.id,
    {
        self.id
    }

    /// The address of this node.
    pub fn addr(&self) -> (r: SocketAddress)
        ensures
            r == self@.addr,
    {
        self.addr
    }

    /// This node.
    pub fn node(&self) -> (r: Node)
        ensures
            r == self@.node(),
    {
        Node { id: self.id, addr: self.addr }
    }

    /// The routing state, for reading.
    pub fn store(&self) -> (db: &Db)
        ensures
            db@ == self@.store,
    {
        self.store.db()
    }

    /// The routing state, for changing. Whatever is done through the handle
    /// leaves the identity of the node as it is.
    pub fn store_mut(&mut self) -> (db: &mut Db)
        ensures
            db@ == old(self)@.store,
            final(self)@ == (ServiceView { store: final(db)@, ..old(self)@ }),
    {
        self.store.db_mut()
    }

    /// Finds the successor of `id` as far as this node can: either the
    /// successor itself, or the call by which the question is passed on. The
    /// node that the question is passed to lies strictly between this node
    /// and `id`, so each hop comes closer.
    pub fn find_successor(&self, id: NodeId) -> (r: Lookup)
        requires
            self@.wf(),
        ensures
            r == self@.route(id.0),
            r matches Lookup::Found(found) ==> found == self@.successor(),
            r matches Lookup::Forward(request) ==> between_exclusive(
                request.peer().id.0,
                self@.id,
                id.0,
            ),
            r matches Lookup::Forward(request) ==> (id.0 != self@.id ==> 0 < clockwise(
                request.peer().id.0,
                id.0,
            ) < clockwise(self@.id, id.0)),
    {
        let successor = self.store.db().successor();
        if is_between_half_open(id.0, self.id.0, successor.id.0) {
            Lookup::Found(successor)
        } else {
            let next = self.closest_preceding_node(id);
            proof {
                lemma_closest_preceding_on_arc(self@.store.fingers, self@.id, id.0);
                if next.id.0 != self.id.0 && id.0 != self.id.0 {
                    lemma_exclusive_is_closer(next.id.0, self.id.0, id.0);
                }
            }
            if next.id.0 == self.id.0 {
                Lookup::Found(successor)
            } else {
                Lookup::Forward(Request::FindSuccessor { peer: next, id })
            }
        }
    }

    /// The predecessor, where one is known.
    pub fn get_predecessor(&self) -> (r: Result<Option<Node>, ServiceError>)
        ensures
            r == Ok::<Option<Node>, ServiceError>(self@.store.predecessor),
    {
        Ok(self.store.db().predecessor())
    }

    /// The nearest successor.
    pub fn get_successor(&self) -> (r: Result<Node, ServiceError>)
        requires
            self@.wf(),
        ensures
            r == Ok::<Node, ServiceError>(self@.successor()),
    {
        Ok(self.store.db().successor())
    }

    /// The call that opens joining the ring that `node` is part of: `node` is
    /// asked for the successor of this node's identifier.
    pub fn join_request(&self, node: Node) -> (r: Request)
        ensures
            r == (Request::FindSuccessor { peer: node, id: NodeId(self@.id) }),
    {
        Request::FindSuccessor { peer: node, id: self.id }
    }

    /// Completes joining a ring. `answer` is what the node that is already in
    /// the ring gave when asked for the successor of this node's identifier.
    /// An answer becomes the nearest successor; an error is handed on and
    /// leaves the state as it was.
    pub fn join(&mut self, answer: Result<Node, ClientError>) -> (r: Result<(), ServiceError>)
        requires
            old(self)@.wf(),
        ensures
            final(self)@.wf(),
            match answer {
                Ok(successor) => {
                    &&& r is Ok
                    &&& final(self)@ == (ServiceView {
                        store: StoreView {
                            successors: old(self)@.store.successors.update(0, successor),
                            ..old(self)@.store
                        },
                        ..old(self)@
                    })
                },
                Err(err) => {
                    &&& r matches Err(e) && e@ == client_failure(err@)
                    &&& final(self)@ == old(self)@
                },
            },
    {
        match answer {
            Ok(successor) => {
                self.store.db_mut().set_successor(successor);
                Ok(())
            },
            Err(err) => Err(ServiceError::from(err)),
        }
    }

    /// Takes note of a node that believes itself to be this node's
    /// predecessor. It becomes the predecessor where none is known, or where
    /// it lies between the known predecessor and this node.
    pub fn notify(&mut self, node: Node)
        ensures
            final(self)@ == (ServiceView {
                store: StoreView {
                    predecessor: old(self)@.notified(node),
                    ..old(self)@.store
                },
                ..old(self)@
            }),
            old(self)@.store.predecessor is None ==> final(self)@.store.predecessor == Some(node),
            final(self)@.store.predecessor is Some,
            old(self)@.wf() ==> final(self)@.wf(),
            node.id.0 != old(self)@.id && old(self)@.predecessor_is_another()
                ==> final(self)@.predecessor_is_another(),
    {
        let install: bool = match self.store.db().predecessor() {
            None => true,
            Some(known) => is_between_exclusive(node.id.0, known.id.0, self.id.0),
        };
        if install {
            self.store.db_mut().set_predecessor(node);
        }
    }

    /// The call that opens a round of stabilization: the nearest successor is
    /// asked for its predecessor.
    pub fn stabilize_request(&self) -> (r: Request)
        requires
            self@.wf(),
        ensures
            r == (Request::Predecessor { peer: self@.successor() }),
    {
        Request::Predecessor { peer: self.store.db().successor() }
    }

    /// Repairs the successor pointer. `seen` is what the nearest successor
    /// gave when asked for its predecessor. A node that it reported and that
    /// lies between this node and the successor becomes the nearest
    /// successor; an error leaves the successor as it is. The result is the
    /// call that is owed afterwards: the nearest successor, as it is then, is
    /// told of this node. An error of that call ends the round as a failure.
    pub fn stabilize(&mut self, seen: Result<Option<Node>, ClientError>) -> (r: Request)
        requires
            old(self)@.wf(),
        ensures
            final(self)@.wf(),
            final(self)@ == (ServiceView {
                store: StoreView {
                    successors: old(self)@.store.successors.update(
                        0,
                        old(self)@.stabilized(
                            match seen {
                                Ok(reported) => reported,
                                Err(_) => None,
                            },
                        ),
                    ),
                    ..old(self)@.store
                },
                ..old(self)@
            }),
            r == (Request::Notify {
                peer: final(self)@.successor(),
                candidate: old(self)@.node(),
            }),
    {
        if let Ok(Some(x)) = seen {
            let successor = self.store.db().successor();
            if is_between_exclusive(x.id.0, self.id.0, successor.id.0) {
                self.store.db_mut().set_successor(x);
            }
        }
        assert(self@.store.successors =~= old(self)@.store.successors.update(
            0,
            self@.store.successors[0],
        ));
        Request::Notify { peer: self.store.db().successor(), candidate: self.node() }
    }

    /// The call that opens the renewal of the successor list: the nearest
    /// successor is asked for its successor list.
    pub fn reconcile_request(&self) -> (r: Request)
        requires
            self@.wf(),
        ensures
            r == (Request::SuccessorList { peer: self@.successor() }),
    {
        Request::SuccessorList { peer: self.store.db().successor() }
    }

    /// Renews the successor list. `successor` is the node that was asked for
    /// its successor list and `answer` is what it gave. The new list is that
    /// node followed by its successors, cut to the replication factor; an
    /// error is handed on and leaves the list as it was.
    pub fn reconcile_successors(
        &mut self,
        successor: Node,
        answer: Result<Vec<Node>, ClientError>,
    ) -> (r: Result<(), ServiceError>)
        requires
            old(self)@.wf(),
        ensures
            final(self)@.wf(),
            match answer {
                Ok(list) => {
                    &&& r is Ok
                    &&& final(self)@ == (ServiceView {
                        store: StoreView {
                            successors: truncated(
                                seq![successor] + list@,
                                old(self)@.store.capacity,
                            ),
                            ..old(self)@.store
                        },
                        ..old(self)@
                    })
                },
                Err(err) => {
                    &&& r matches Err(e) && e@ == client_failure(err@)
                    &&& final(self)@ == old(self)@
                },
            },
    {
        match answer {
            Ok(list) => {
                let mut successors: Vec<Node> = Vec::new();
                successors.push(successor);
                let mut i: usize = 0;
                while i < list.len()
                    invariant
                        i <= list.len(),
                        successors@ == seq![successor] + list@.take(i as int),
                    decreases list.len() - i,
                {
                    successors.push(list[i]);
                    i = i + 1;
                }
                assert(list@.take(list.len() as int) == list@);
                self.store.db_mut().set_successor_list(successors);
                Ok(())
            },
            Err(err) => Err(ServiceError::from(err)),
        }
    }

    /// The call that opens a check of the predecessor: the predecessor is
    /// pinged. Without a predecessor there is nothing to check.
    pub fn check_predecessor_request(&self) -> (r: Option<Request>)
        ensures
            r == match self@.store.predecessor {
                Some(predecessor) => Some(Request::Ping { peer: predecessor }),
                None => None,
            },
    {
        match self.store.db().predecessor() {
            Some(predecessor) => Some(Request::Ping { peer: predecessor }),
            None => None,
        }
    }

    /// Acts on the outcome of a ping of the predecessor. A predecessor that
    /// cannot be reached is forgotten, and that is no error; any other error
    /// is handed on; a predecessor that answered stays.
    pub fn check_predecessor(&mut self, outcome: Result<(), ClientError>) -> (r: Result<
        (),
        ServiceError,
    >)
        ensures
            old(self)@.wf() ==> final(self)@.wf(),
            match outcome {
                Ok(_) => r is Ok && final(self)@ == old(self)@,
                Err(err) => if err@.is_connection_failure() {
                    &&& r is Ok
                    &&& final(self)@ == (ServiceView {
                        store: StoreView { predecessor: None, ..old(self)@.store },
                        ..old(self)@
                    })
                } else {
                    &&& r matches Err(e) && e@ == client_failure(err@)
                    &&& final(self)@ == old(self)@
                },
            },
    {
        match outcome {
            Ok(_) => Ok(()),
            Err(err) => {
                if err.is_connection_failure() {
                    self.store.db_mut().unset_predecessor();
                    Ok(())
                } else {
                    Err(ServiceError::from(err))
                }
            },
        }
    }

    /// The identifier whose successor finger `index` is to point at: what is
    /// to be looked up before the step of the sweep for that finger.
    pub fn finger_start(&self, index: usize) -> (r: NodeId)
        requires
            index < ID_BITS,
        ensures
            r.0 == finger_start(self@.id, index as nat),
    {
        NodeId(Finger::finger_id(self.id.0, index))
    }

    /// One step of the sweep that renews the finger table. `answer` is the
    /// outcome of looking up the successor of the start of finger `index`. An
    /// answer becomes the node of that finger; an error leaves the finger as
    /// it is and does not end the sweep. The result is the index of the
    /// finger to renew next, or `None` after the last one.
    pub fn fix_fingers(&mut self, index: usize, answer: Result<Node, ServiceError>) -> (next:
        Option<usize>)
        requires
            old(self)@.wf(),
            index < ID_BITS,
        ensures
            final(self)@.wf(),
            match answer {
                Ok(node) => final(self)@ == (ServiceView {
                    store: StoreView {
                        fingers: old(self)@.store.fingers.update(
                            index as int,
                            Finger { start: finger_start(old(self)@.id, index as nat), node },
                        ),
                        ..old(self)@.store
                    },
                    ..old(self)@
                }),
                Err(_) => final(self)@ == old(self)@,
            },
            next == if index + 1 < ID_BITS {
                Some((index + 1) as usize)
            } else {
                None
            },
    {
        if let Ok(node) = answer {
            self.store.db_mut().update_finger(index, node);
        }
        if index + 1 < ID_BITS {
            Some(index + 1)
        } else {
            None
        }
    }

    /// A copy of the finger table.
    pub fn finger_table(&self) -> (r: Vec<Finger>)
        ensures
            r@ == self@.store.fingers,
    {
        self.store.db().finger_table()
    }

    /// The node that most closely precedes `id` as far as the fingers tell,
    /// or this node where no finger precedes it.
    pub fn closest_preceding_node(&self, id: NodeId) -> (r: Node)
        ensures
            r == self@.closest_preceding_node(id.0),
    {
        match self.store.db().closest_preceding_node(self.id.0, id.0) {
            Some(node) => node,
            None => self.node(),
        }
    }
}

} // verus!
