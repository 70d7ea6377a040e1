use bully::election::{ElectionError, ElectionManager, ElectionService, Node, PeerReply};

fn node(id: i32, addr: &str) -> Node {
    Node { id, addr: addr.to_string() }
}

#[test]
fn declares_self_leader_when_no_higher() {
    let self_node = Node { id: 10, addr: "127.0.0.1:50051".into() };
    let peers = vec![Node { id: 1, addr: "127.0.0.1:50052".into() }];
    let mut mgr = ElectionManager::new(self_node.clone(), peers);
    assert!(mgr.higher_peers().is_empty());
    let replies: Vec<PeerReply> = Vec::new();
    mgr.start_election(&replies);
    let leader = mgr.get_leader();
    assert!(leader.is_some());
    assert_eq!(leader.unwrap().id, self_node.id);
}

#[test]
fn reachable_higher_peer_defers() {
    let mut mgr = ElectionManager::new(node(1, "127.0.0.1:50051"), vec![node(10, "127.0.0.1:50052")]);
    let higher = mgr.higher_peers();
    assert_eq!(higher.len(), 1);
    assert_eq!(higher[0].id, 10);
    let announce = mgr.start_election(&vec![PeerReply::Answered(true)]);
    assert!(announce.is_empty());
    assert!(mgr.get_leader().is_none());
}

#[test]
fn unreachable_higher_peer_self_declares() {
    let mut mgr = ElectionManager::new(node(1, "127.0.0.1:50051"), vec![node(10, "127.0.0.1:50052")]);
    let announce = mgr.start_election(&vec![PeerReply::Unreachable]);
    let leader = mgr.get_leader().unwrap();
    assert_eq!(leader.id, 1);
    assert_eq!(leader.addr, "127.0.0.1:50051");
    assert_eq!(announce.len(), 1);
    assert_eq!(announce[0].id, 10);
}

#[test]
fn all_higher_unreachable_self_declares() {
    let peers = vec![node(7, "h1"), node(9, "h2"), node(3, "l1")];
    let mut mgr = ElectionManager::new(node(5, "me"), peers);
    let higher = mgr.higher_peers();
    assert_eq!(higher.len(), 2);
    let announce = mgr.start_election(&vec![PeerReply::Unreachable, PeerReply::Unreachable]);
    assert_eq!(mgr.get_leader().unwrap().id, 5);
    assert_eq!(announce.len(), 3);
}

#[test]
fn negative_reply_counts_as_absent() {
    let mut mgr = ElectionManager::new(node(1, "me"), vec![node(10, "high")]);
    mgr.start_election(&vec![PeerReply::Answered(false)]);
    assert_eq!(mgr.get_leader().unwrap().id, 1);
}

#[test]
fn later_affirmative_still_defers() {
    let mut mgr = ElectionManager::new(node(1, "me"), vec![node(8, "h1"), node(9, "h2")]);
    let announce = mgr.start_election(&vec![PeerReply::Unreachable, PeerReply::Answered(true)]);
    assert!(announce.is_empty());
    assert!(mgr.get_leader().is_none());
}

#[test]
fn affirmed_election_keeps_existing_leader() {
    let mgr = ElectionManager::new(node(1, "me"), vec![node(10, "high")]);
    let mut svc = ElectionService { manager: mgr };
    let alive = svc.announce_coordinator(Some(node(99, "far")));
    assert!(alive);
    svc.manager.start_election(&vec![PeerReply::Answered(true)]);
    let leader = svc.manager.get_leader().unwrap();
    assert_eq!(leader.id, 99);
    assert_eq!(leader.addr, "far");
}

#[test]
fn last_announcement_wins() {
    let mgr = ElectionManager::new(node(5, "me"), vec![node(2, "low")]);
    let mut svc = ElectionService { manager: mgr };
    assert!(svc.announce_coordinator(Some(node(2, "low"))));
    assert!(svc.announce_coordinator(Some(node(1, "lower"))));
    let leader = svc.manager.get_leader().unwrap();
    assert_eq!(leader.id, 1);
    assert_eq!(leader.addr, "lower");
}

#[test]
fn announcement_without_leader_changes_nothing() {
    let mgr = ElectionManager::new(node(5, "me"), vec![]);
    let mut svc = ElectionService { manager: mgr };
    assert!(svc.announce_coordinator(Some(node(7, "new"))));
    assert!(svc.announce_coordinator(None));
    assert_eq!(svc.manager.get_leader().unwrap().id, 7);
}

#[test]
fn election_from_lower_identity_replies_ok() {
    let svc = ElectionService { manager: ElectionManager::new(node(5, "me"), vec![]) };
    assert_eq!(svc.election(&Some(node(3, "low"))), Ok(true));
}

#[test]
fn election_from_equal_identity_replies_not_ok() {
    let svc = ElectionService { manager: ElectionManager::new(node(5, "me"), vec![]) };
    assert_eq!(svc.election(&Some(node(5, "twin"))), Ok(false));
}

#[test]
fn election_from_higher_identity_replies_not_ok() {
    let svc = ElectionService { manager: ElectionManager::new(node(5, "me"), vec![]) };
    assert_eq!(svc.election(&Some(node(9, "high"))), Ok(false));
}

#[test]
fn election_without_originator_fails() {
    let mgr = ElectionManager::new(node(5, "me"), vec![node(9, "high")]);
    let mut svc = ElectionService { manager: mgr };
    svc.announce_coordinator(Some(node(9, "high")));
    let r = svc.election(&None);
    assert!(matches!(r, Err(ElectionError::MissingOriginator)));
    let leader = svc.manager.get_leader().unwrap();
    assert_eq!(leader.id, 9);
    assert_eq!(leader.addr, "high");
}

#[test]
fn ping_replies_alive() {
    let svc = ElectionService { manager: ElectionManager::new(node(5, "me"), vec![]) };
    assert!(svc.ping());
}

#[test]
fn higher_peers_keeps_order_and_addresses() {
    let peers = vec![node(3, "a"), node(9, "b"), node(7, "c"), node(1, "d")];
    let mgr = ElectionManager::new(node(5, "me"), peers);
    let higher = mgr.higher_peers();
    assert_eq!(higher.len(), 2);
    assert_eq!(higher[0].id, 9);
    assert_eq!(higher[0].addr, "b");
    assert_eq!(higher[1].id, 7);
    assert_eq!(higher[1].addr, "c");
}

#[test]
fn empty_cluster_elects_self_and_announces_nobody() {
    let mut mgr = ElectionManager::new(node(42, "alone"), vec![]);
    assert!(mgr.higher_peers().is_empty());
    let announce = mgr.start_election(&Vec::new());
    assert!(announce.is_empty());
    assert_eq!(mgr.get_leader().unwrap().id, 42);
}
