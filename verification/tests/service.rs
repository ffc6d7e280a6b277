use chord_node::address::hash_address;
use chord_node::address::SocketAddress;
use chord_node::client::ClientError;
use chord_node::node::Finger;
use chord_node::node::Node;
use chord_node::node::NodeId;
use chord_node::service::surface;
use chord_node::service::Lookup;
use chord_node::service::NodeService;
use chord_node::service::Request;
use chord_node::service::ServiceError;

fn local(port: u16) -> SocketAddress {
    SocketAddress::v4([127, 0, 0, 1], port)
}

/// The node with the given identifier, listening on port 42000 plus the
/// identifier.
fn node(id: u16) -> Node {
    Node::with_id(NodeId(id as u64), local(42000 + id))
}

/// Checks the predecessor of `service` as a program would: the predecessor,
/// where there is one, is pinged by `ping`, and the service acts on the
/// outcome.
fn check_predecessor(
    service: &mut NodeService,
    ping: impl Fn(SocketAddress) -> Result<(), ClientError>,
) -> Result<(), ServiceError> {
    match service.check_predecessor_request() {
        Some(Request::Ping { peer }) => {
            let outcome = ping(peer.addr());
            service.check_predecessor(outcome)
        }
        Some(other) => panic!("a predecessor is checked by a ping, not by {:?}", other),
        None => Ok(()),
    }
}

/// Joins the ring of `bootstrap` as a program would: the node is asked for
/// the successor of the service's identifier by `find_successor`.
fn join(
    service: &mut NodeService,
    bootstrap: Node,
    find_successor: impl Fn(SocketAddress, NodeId) -> Result<Node, ClientError>,
) -> Result<(), ServiceError> {
    let answer = match service.join_request(bootstrap) {
        Request::FindSuccessor { peer, id } => find_successor(peer.addr(), id),
        other => panic!("a ring is joined by a lookup, not by {:?}", other),
    };
    service.join(answer)
}

#[test]
fn when_predecessor_is_up_it_should_not_be_removed() {
    let mut service = NodeService::with_id(NodeId(8), SocketAddress::from(([127, 0, 0, 1], 42001)), 3);
    service.store_mut().set_successor(node(16));
    service.store_mut().set_predecessor(node(12));

    check_predecessor(&mut service, |addr| {
        assert_eq!(addr.port(), 42012);
        Ok(())
    })
    .unwrap();

    assert!(service.store().predecessor().is_some());
    assert_eq!(service.store().predecessor().unwrap().id, NodeId(12));
}

#[test]
fn when_predecessor_is_down_it_should_be_removed() {
    let mut service = NodeService::with_id(NodeId(8), SocketAddress::from(([127, 0, 0, 1], 42001)), 3);
    service.store_mut().set_successor(node(10));
    service.store_mut().set_predecessor(node(10));

    check_predecessor(&mut service, |_| {
        Err(ClientError::ConnectionFailed("Error".to_string()))
    })
    .unwrap();

    assert!(service.store().predecessor().is_none());
}

#[test]
fn join_join_test() {
    let mut service = NodeService::with_id(NodeId(1), SocketAddress::from(([127, 0, 0, 1], 42001)), 3);

    join(&mut service, node(115), |addr, id| {
        assert_eq!(addr.port(), 42115);
        assert_eq!(id, NodeId(1));
        Ok(node(115))
    })
    .unwrap();

    assert_eq!(service.store().successor().id, NodeId(115));
}

#[test]
fn join_join_error_test() {
    let mut service = NodeService::with_id(NodeId(2), SocketAddress::from(([127, 0, 0, 1], 42001)), 3);

    let result = join(&mut service, node(116), |addr, id| {
        assert_eq!(addr.port(), 42116);
        assert_eq!(id, NodeId(2));
        Err(ClientError::Unexpected)
    });

    assert!(result.is_err());
    let message = result.unwrap_err().to_string();
    assert_eq!(message, "Client error: Unexpected error");
    assert_eq!(service.store().successor().id, NodeId(2));
    assert_eq!(service.store().successor().addr(), SocketAddress::from(([127, 0, 0, 1], 42001)));
}

#[test]
fn new_service_takes_its_identifier_from_its_address() {
    let addr = local(42000);
    let service = NodeService::new(addr, 3);
    assert_eq!(service.id(), NodeId(hash_address(addr)));
    assert_eq!(service.addr(), addr);
    assert_eq!(service.node().id(), service.id());
    assert_eq!(service.get_successor().unwrap().id(), service.id());
    assert_eq!(service.get_predecessor().unwrap(), None);
    assert_eq!(service.store().successor_list().len(), 1);
}

#[test]
fn new_service_has_its_fingers_start_from_itself() {
    let service = NodeService::with_id(NodeId(8), local(42008), 3);
    let table = service.finger_table();
    assert_eq!(table.len(), 64);
    for (i, finger) in table.iter().enumerate() {
        assert_eq!(finger.start, Finger::finger_id(8, i));
        assert_eq!(NodeId(finger.start), service.finger_start(i));
        assert_eq!(finger.node.id(), NodeId(8));
    }
}

#[test]
fn notify_installs_the_first_candidate() {
    let mut service = NodeService::with_id(NodeId(8), local(42008), 3);
    service.notify(node(3));
    assert_eq!(service.get_predecessor().unwrap(), Some(node(3)));
    assert_eq!(service.get_predecessor().unwrap().unwrap().addr(), local(42003));
}

#[test]
fn notify_installs_a_closer_candidate_only() {
    let mut service = NodeService::with_id(NodeId(8), local(42008), 3);
    service.notify(node(3));
    service.notify(node(2));
    assert_eq!(service.get_predecessor().unwrap().unwrap().id(), NodeId(3));
    service.notify(node(5));
    assert_eq!(service.get_predecessor().unwrap().unwrap().id(), NodeId(5));
    service.notify(node(9));
    assert_eq!(service.get_predecessor().unwrap().unwrap().id(), NodeId(5));
    service.notify(node(8));
    assert_eq!(service.get_predecessor().unwrap().unwrap().id(), NodeId(5));
    service.notify(node(5));
    assert_eq!(service.get_predecessor().unwrap().unwrap().id(), NodeId(5));
}

#[test]
fn notify_across_zero() {
    let mut service = NodeService::with_id(NodeId(2), local(42002), 3);
    service.notify(node(5));
    service.notify(node(9));
    assert_eq!(service.get_predecessor().unwrap().unwrap().id(), NodeId(9));
    service.notify(node(1));
    assert_eq!(service.get_predecessor().unwrap().unwrap().id(), NodeId(1));
    service.notify(node(7));
    assert_eq!(service.get_predecessor().unwrap().unwrap().id(), NodeId(1));
}

#[test]
fn find_successor_on_a_ring_of_one() {
    let service = NodeService::with_id(NodeId(8), local(42008), 3);
    for id in [0u64, 7, 8, 9, u64::MAX] {
        match service.find_successor(NodeId(id)) {
            Lookup::Found(found) => assert_eq!(found.id(), NodeId(8)),
            Lookup::Forward(_) => panic!("nothing to forward to"),
        }
    }
}

#[test]
fn find_successor_answers_for_what_the_successor_holds() {
    let mut service = NodeService::with_id(NodeId(8), local(42008), 3);
    service.store_mut().set_successor(node(16));
    for id in [9u64, 12, 16] {
        match service.find_successor(NodeId(id)) {
            Lookup::Found(found) => assert_eq!(found.id(), NodeId(16)),
            Lookup::Forward(_) => panic!("the successor holds {}", id),
        }
    }
}

#[test]
fn find_successor_without_a_better_finger_falls_back_to_the_successor() {
    let mut service = NodeService::with_id(NodeId(8), local(42008), 3);
    service.store_mut().set_successor(node(16));
    for id in [17u64, 100, 3, 8] {
        match service.find_successor(NodeId(id)) {
            Lookup::Found(found) => assert_eq!(found.id(), NodeId(16)),
            Lookup::Forward(_) => panic!("no finger is known"),
        }
    }
}

#[test]
fn find_successor_forwards_to_the_closest_preceding_finger() {
    let mut service = NodeService::with_id(NodeId(8), local(42008), 3);
    service.store_mut().set_successor(node(16));
    service.store_mut().update_finger(3, node(16));
    service.store_mut().update_finger(5, node(40));
    service.store_mut().update_finger(7, node(200));
    match service.find_successor(NodeId(300)) {
        Lookup::Forward(Request::FindSuccessor { peer, id }) => {
            assert_eq!(peer.id(), NodeId(200));
            assert_eq!(peer.addr(), local(42200));
            assert_eq!(id, NodeId(300));
        }
        other => panic!("finger 7 precedes 300, yet {:?}", other),
    }
    for (id, next) in [(100u64, 40u64), (30, 16), (4, 200)] {
        match service.find_successor(NodeId(id)) {
            Lookup::Forward(request) => {
                assert_eq!(request.peer().id(), NodeId(next));
                assert!(matches!(
                    request,
                    Request::FindSuccessor { id: asked, .. } if asked == NodeId(id)
                ));
            }
            Lookup::Found(found) => panic!("node {} precedes {}, yet {:?}", next, id, found),
        }
    }
}

#[test]
fn closest_preceding_node_is_the_node_itself_without_fingers() {
    let service = NodeService::with_id(NodeId(8), local(42008), 3);
    let closest = service.closest_preceding_node(NodeId(100));
    assert_eq!(closest.id(), NodeId(8));
    assert_eq!(closest.addr(), local(42008));
}

/// The parts of the notification that ends a round of stabilization.
fn notification(request: Request) -> (Node, Node) {
    match request {
        Request::Notify { peer, candidate } => (peer, candidate),
        other => panic!("stabilization ends with a notification, not with {:?}", other),
    }
}

#[test]
fn requests_name_the_node_to_ask() {
    let mut service = NodeService::with_id(NodeId(8), local(42008), 3);
    service.store_mut().set_successor(node(16));
    service.store_mut().set_predecessor(node(3));
    assert!(matches!(
        service.join_request(node(20)),
        Request::FindSuccessor { peer, id } if peer.id() == NodeId(20) && id == NodeId(8)
    ));
    assert!(matches!(
        service.stabilize_request(),
        Request::Predecessor { peer } if peer.id() == NodeId(16)
    ));
    assert!(matches!(
        service.reconcile_request(),
        Request::SuccessorList { peer } if peer.id() == NodeId(16)
    ));
    assert!(matches!(
        service.check_predecessor_request(),
        Some(Request::Ping { peer }) if peer.id() == NodeId(3)
    ));
    assert_eq!(service.join_request(node(20)).peer().addr(), local(42020));
    assert_eq!(service.stabilize_request().peer().id(), NodeId(16));
    service.store_mut().unset_predecessor();
    assert!(service.check_predecessor_request().is_none());
}

#[test]
fn stabilize_adopts_a_node_between_itself_and_the_successor() {
    let mut service = NodeService::with_id(NodeId(8), local(42008), 3);
    service.store_mut().set_successor(node(16));
    let (peer, candidate) = notification(service.stabilize(Ok(Some(node(12)))));
    assert_eq!(service.get_successor().unwrap().id(), NodeId(12));
    assert_eq!(peer.id(), NodeId(12));
    assert_eq!(peer.addr(), local(42012));
    assert_eq!(candidate.id(), NodeId(8));
    assert_eq!(candidate.addr(), local(42008));
}

#[test]
fn stabilize_keeps_the_successor_otherwise() {
    let mut service = NodeService::with_id(NodeId(8), local(42008), 3);
    service.store_mut().set_successor(node(16));
    for seen in [
        Ok(None),
        Ok(Some(node(8))),
        Ok(Some(node(16))),
        Ok(Some(node(20))),
        Ok(Some(node(3))),
        Err(ClientError::Unexpected),
        Err(ClientError::ConnectionFailed("down".to_string())),
    ] {
        let (peer, candidate) = notification(service.stabilize(seen));
        assert_eq!(service.get_successor().unwrap().id(), NodeId(16));
        assert_eq!(peer.id(), NodeId(16));
        assert_eq!(candidate.id(), NodeId(8));
    }
}

#[test]
fn stabilize_leaves_the_rest_of_the_successor_list() {
    let mut service = NodeService::with_id(NodeId(8), local(42008), 3);
    service
        .store_mut()
        .set_successor_list(vec![node(16), node(20), node(24)]);
    service.stabilize(Ok(Some(node(10))));
    let ids: Vec<u64> = service
        .store()
        .successor_list()
        .iter()
        .map(|n| n.id.0)
        .collect();
    assert_eq!(ids, vec![10, 20, 24]);
}

#[test]
fn reconcile_successors_prepends_the_successor() {
    let mut service = NodeService::with_id(NodeId(8), local(42008), 4);
    service.store_mut().set_successor(node(16));
    service
        .reconcile_successors(node(16), Ok(vec![node(20), node(24)]))
        .unwrap();
    let ids: Vec<u64> = service
        .store()
        .successor_list()
        .iter()
        .map(|n| n.id.0)
        .collect();
    assert_eq!(ids, vec![16, 20, 24]);
}

#[test]
fn reconcile_successors_cuts_to_the_replication_factor() {
    let mut service = NodeService::with_id(NodeId(8), local(42008), 3);
    service.store_mut().set_successor(node(16));
    service
        .reconcile_successors(node(16), Ok(vec![node(20), node(24), node(28)]))
        .unwrap();
    let ids: Vec<u64> = service
        .store()
        .successor_list()
        .iter()
        .map(|n| n.id.0)
        .collect();
    assert_eq!(ids, vec![16, 20, 24]);
}

#[test]
fn reconcile_successors_shrinks_with_a_short_answer() {
    let mut service = NodeService::with_id(NodeId(8), local(42008), 3);
    service
        .store_mut()
        .set_successor_list(vec![node(16), node(20), node(24)]);
    service.reconcile_successors(node(16), Ok(vec![])).unwrap();
    let ids: Vec<u64> = service
        .store()
        .successor_list()
        .iter()
        .map(|n| n.id.0)
        .collect();
    assert_eq!(ids, vec![16]);
}

#[test]
fn reconcile_successors_hands_an_error_on() {
    let mut service = NodeService::with_id(NodeId(8), local(42008), 3);
    service
        .store_mut()
        .set_successor_list(vec![node(16), node(20)]);
    let result = service.reconcile_successors(
        node(16),
        Err(ClientError::ConnectionFailed("refused".to_string())),
    );
    assert_eq!(
        result,
        Err(ServiceError::Unexpected(
            "Client error: Connection failed: refused".to_string()
        ))
    );
    assert_eq!(service.store().successor_list().len(), 2);
}

#[test]
fn check_predecessor_without_predecessor_does_nothing() {
    let mut service = NodeService::with_id(NodeId(8), local(42008), 3);
    check_predecessor(&mut service, |_| panic!("nobody to ping")).unwrap();
    assert_eq!(service.get_predecessor().unwrap(), None);
}

#[test]
fn check_predecessor_forgets_a_client_that_never_connected() {
    let mut service = NodeService::with_id(NodeId(8), local(42008), 3);
    service.notify(node(3));
    assert_eq!(service.check_predecessor(Err(ClientError::NotInitialized)), Ok(()));
    assert_eq!(service.get_predecessor().unwrap(), None);
}

#[test]
fn check_predecessor_hands_other_errors_on() {
    let mut service = NodeService::with_id(NodeId(8), local(42008), 3);
    service.notify(node(3));
    let result = service.check_predecessor(Err(ClientError::Unexpected));
    assert_eq!(
        result,
        Err(ServiceError::Unexpected(
            "Client error: Unexpected error".to_string()
        ))
    );
    assert_eq!(service.get_predecessor().unwrap().unwrap().id(), NodeId(3));
}

#[test]
fn fix_fingers_installs_answers_and_skips_errors() {
    let mut service = NodeService::with_id(NodeId(8), local(42008), 3);
    let mut next = Some(0);
    let mut steps = 0;
    while let Some(index) = next {
        let start = service.finger_start(index);
        assert_eq!(start, NodeId(Finger::finger_id(8, index)));
        let answer = if index % 2 == 0 {
            Ok(node(100 + index as u16))
        } else {
            Err(ServiceError::Unexpected("no answer".to_string()))
        };
        next = service.fix_fingers(index, answer);
        steps += 1;
    }
    assert_eq!(steps, 64);
    let table = service.finger_table();
    for (i, finger) in table.iter().enumerate() {
        assert_eq!(finger.start, Finger::finger_id(8, i));
        if i % 2 == 0 {
            assert_eq!(finger.node.id(), NodeId(100 + i as u64));
        } else {
            assert_eq!(finger.node.id(), NodeId(8));
        }
    }
}

#[test]
fn fix_fingers_ends_after_the_last_finger() {
    let mut service = NodeService::with_id(NodeId(8), local(42008), 3);
    assert_eq!(service.fix_fingers(0, Ok(node(9))), Some(1));
    assert_eq!(service.fix_fingers(62, Ok(node(9))), Some(63));
    assert_eq!(service.fix_fingers(63, Ok(node(9))), None);
}

#[test]
fn surface_keeps_answers_and_wraps_errors() {
    assert_eq!(surface(Ok(7u8)), Ok(7u8));
    assert_eq!(
        surface::<u8>(Err(ClientError::NotInitialized)),
        Err(ServiceError::Unexpected(
            "Client error: Client not initialized".to_string()
        ))
    );
}

#[test]
fn client_errors_describe_themselves() {
    assert_eq!(
        ClientError::ConnectionFailed("Error".to_string()).to_string(),
        "Connection failed: Error"
    );
    assert_eq!(ClientError::NotInitialized.to_string(), "Client not initialized");
    assert_eq!(ClientError::Unexpected.to_string(), "Unexpected error");
    assert!(ClientError::ConnectionFailed(String::new()).is_connection_failure());
    assert!(ClientError::NotInitialized.is_connection_failure());
    assert!(!ClientError::Unexpected.is_connection_failure());
}

#[test]
fn service_error_from_client_error() {
    let err = ServiceError::from(ClientError::ConnectionFailed("Test".to_string()));
    assert_eq!(err.to_string(), "Client error: Connection failed: Test");
}

/// The place in `ring` of the service that runs `node`.
fn place(ring: &[NodeService], node: Node) -> usize {
    ring.iter()
        .position(|service| service.id() == node.id())
        .expect("every node that is asked is part of the ring")
}

/// Makes the call `request` among the services of `ring`, as a network
/// would, and gives the node that was answered, where the call asks for one.
fn perform(ring: &mut [NodeService], request: Request) -> Result<Option<Node>, ClientError> {
    let peer = place(ring, request.peer());
    match request {
        Request::FindSuccessor { id, .. } => match ring[peer].find_successor(id) {
            Lookup::Found(found) => Ok(Some(found)),
            Lookup::Forward(next) => perform(ring, next),
        },
        Request::Predecessor { .. } => ring[peer]
            .get_predecessor()
            .map_err(|_| ClientError::Unexpected),
        Request::Notify { candidate, .. } => {
            ring[peer].notify(candidate);
            Ok(None)
        }
        Request::SuccessorList { .. } | Request::Ping { .. } => Ok(None),
    }
}

/// One round of stabilization of the service at `who`.
fn stabilize(ring: &mut [NodeService], who: usize) {
    let request = ring[who].stabilize_request();
    let seen = perform(ring, request);
    let notification = ring[who].stabilize(seen);
    perform(ring, notification).unwrap();
}

#[test]
fn two_nodes_form_a_ring() {
    let a = NodeService::with_id(NodeId(8), local(42001), 3);
    let b = NodeService::with_id(NodeId(16), local(42002), 3);
    let bootstrap = a.node();
    let mut ring = [a, b];

    let request = ring[1].join_request(bootstrap);
    let answer = perform(&mut ring, request).map(|found| found.unwrap());
    ring[1].join(answer).unwrap();
    assert_eq!(ring[1].get_successor().unwrap().id(), NodeId(8));

    for _ in 0..2 {
        stabilize(&mut ring, 0);
        stabilize(&mut ring, 1);
    }

    let [a, b] = ring;
    assert_eq!(a.get_successor().unwrap().id(), NodeId(16));
    assert_eq!(b.get_successor().unwrap().id(), NodeId(8));
    assert_eq!(a.get_predecessor().unwrap().unwrap().id(), NodeId(16));
    assert_eq!(b.get_predecessor().unwrap().unwrap().id(), NodeId(8));
}

#[test]
fn three_nodes_form_a_ring() {
    let mut ring = [
        NodeService::with_id(NodeId(8), local(42008), 3),
        NodeService::with_id(NodeId(16), local(42016), 3),
        NodeService::with_id(NodeId(200), local(42200), 3),
    ];
    let bootstrap = ring[0].node();

    for who in 1..3 {
        let request = ring[who].join_request(bootstrap);
        let answer = perform(&mut ring, request).map(|found| found.unwrap());
        ring[who].join(answer).unwrap();
        for _ in 0..3 {
            for each in 0..3 {
                stabilize(&mut ring, each);
            }
        }
    }

    let successors: Vec<u64> = ring
        .iter()
        .map(|service| service.get_successor().unwrap().id().0)
        .collect();
    assert_eq!(successors, vec![16, 200, 8]);
    let predecessors: Vec<u64> = ring
        .iter()
        .map(|service| service.get_predecessor().unwrap().unwrap().id().0)
        .collect();
    assert_eq!(predecessors, vec![200, 8, 16]);
}

/// Looks up the successor of `id` from the service at `who`, passing the
/// question on through the ring as far as it goes.
fn lookup(ring: &mut [NodeService], who: usize, id: NodeId) -> Result<Node, ServiceError> {
    match ring[who].find_successor(id) {
        Lookup::Found(found) => Ok(found),
        Lookup::Forward(request) => {
            surface(perform(ring, request).map(|found| found.unwrap()))
        }
    }
}

/// One sweep over the finger table of the service at `who`.
fn fix_fingers(ring: &mut [NodeService], who: usize) {
    let mut next = Some(0);
    while let Some(index) = next {
        let start = ring[who].finger_start(index);
        let answer = lookup(ring, who, start);
        next = ring[who].fix_fingers(index, answer);
    }
}

/// The node of `ids` that holds `id`: the first at or after it on the ring.
fn holder(ids: &[u64], id: u64) -> u64 {
    let mut sorted = ids.to_vec();
    sorted.sort();
    match sorted.iter().find(|&&node| node >= id) {
        Some(&node) => node,
        None => sorted[0],
    }
}

#[test]
fn lookups_find_the_holder_from_every_node() {
    let ids: [u64; 6] = [8, 16, 200, 4096, 1 << 40, (1 << 63) + 5];
    let mut ring: Vec<NodeService> = ids
        .iter()
        .enumerate()
        .map(|(i, &id)| NodeService::with_id(NodeId(id), local(42000 + i as u16), 3))
        .collect();
    let bootstrap = ring[0].node();

    for who in 1..ring.len() {
        let request = ring[who].join_request(bootstrap);
        let answer = perform(&mut ring, request).map(|found| found.unwrap());
        ring[who].join(answer).unwrap();
        for _ in 0..ring.len() {
            for each in 0..ring.len() {
                stabilize(&mut ring, each);
            }
        }
    }
    for each in 0..ring.len() {
        let successor = ring[each].get_successor().unwrap().id().0;
        assert_eq!(successor, holder(&ids, ids[each].wrapping_add(1)));
    }

    for _ in 0..2 {
        for each in 0..ring.len() {
            fix_fingers(&mut ring, each);
        }
    }
    for each in 0..ring.len() {
        for finger in ring[each].finger_table() {
            assert_eq!(finger.node().id().0, holder(&ids, finger.start()));
        }
    }

    let keys = [
        0u64,
        7,
        8,
        9,
        16,
        17,
        199,
        201,
        5000,
        1 << 39,
        (1 << 40) + 1,
        1 << 63,
        (1 << 63) + 5,
        (1 << 63) + 6,
        u64::MAX,
    ];
    for who in 0..ring.len() {
        for key in keys {
            let found = lookup(&mut ring, who, NodeId(key)).unwrap();
            assert_eq!(found.id().0, holder(&ids, key), "key {} from node {}", key, who);
        }
    }
}
