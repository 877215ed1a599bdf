use braidpool::connection_manager::{ConnectionManager, Metadata};
use braidpool::peer_addr::PeerAddr;
use std::time::SystemTime;

fn addr(text: &str) -> PeerAddr {
    PeerAddr::new(text.to_string())
}

#[test]
pub fn it_should_create_connections_map() {
    let conns = ConnectionManager::new(10);
    assert_eq!(conns.num_connections(), 0);
}

#[test]
pub fn it_should_insert_new_address() {
    let mut manager = ConnectionManager::new(10);
    let s = Metadata {
        created_at: SystemTime::now(),
    };
    let local = addr("127.0.0.1:8080");
    let other = addr("127.0.0.1:8081");

    assert!(manager.insert(local.clone(), s).unwrap().is_none());
    assert_eq!(manager.num_connections(), 1);

    assert!(manager.get(&local).is_some());
    assert!(manager.get(&other).is_none());

    assert!(manager.remove(&local).is_some());
    assert_eq!(manager.num_connections(), 0);
}

#[test]
pub fn it_should_not_insert_new_address_when_limit_reached() {
    let mut manager = ConnectionManager::new(1);
    let s = Metadata {
        created_at: SystemTime::now(),
    };
    let local = addr("127.0.0.1:8080");
    let other = addr("127.0.0.1:8081");

    assert!(manager.insert(local, s).unwrap().is_none());
    assert_eq!(manager.num_connections(), 1);

    assert!(manager.insert(other, s).is_err());
    assert_eq!(manager.num_connections(), 1);
}

#[test]
fn reinserting_a_peer_replaces_its_metadata() {
    let mut manager = ConnectionManager::new(3);
    let first = Metadata { created_at: SystemTime::UNIX_EPOCH };
    let second = Metadata { created_at: SystemTime::now() };
    let local = addr("127.0.0.1:8080");
    assert!(manager.insert(local.clone(), first).unwrap().is_none());
    let replaced = manager.insert(local.clone(), second).unwrap().unwrap();
    assert_eq!(replaced.created_at, SystemTime::UNIX_EPOCH);
    assert_eq!(manager.num_connections(), 1);
    assert_eq!(manager.get(&local).unwrap().created_at, second.created_at);
}

#[test]
fn a_full_manager_refuses_with_a_reason_and_even_known_peers() {
    let mut manager = ConnectionManager::new(1);
    let s = Metadata { created_at: SystemTime::UNIX_EPOCH };
    let local = addr("127.0.0.1:8080");
    manager.insert(local.clone(), s).unwrap();
    assert_eq!(manager.insert(local.clone(), s).unwrap_err(), "Connection limit reached");
    let mut empty = ConnectionManager::new(0);
    assert!(empty.insert(local, s).is_err());
    assert_eq!(empty.num_connections(), 0);
}

#[test]
fn removing_an_unknown_peer_changes_nothing() {
    let mut manager = ConnectionManager::new(2);
    let s = Metadata { created_at: SystemTime::UNIX_EPOCH };
    manager.insert(addr("10.0.0.1:1"), s).unwrap();
    manager.insert(addr("10.0.0.2:1"), s).unwrap();
    assert!(manager.remove(&addr("10.0.0.3:1")).is_none());
    assert_eq!(manager.num_connections(), 2);
    assert!(manager.remove(&addr("10.0.0.1:1")).is_some());
    assert!(manager.get(&addr("10.0.0.1:1")).is_none());
    assert!(manager.get(&addr("10.0.0.2:1")).is_some());
    assert_eq!(manager.num_connections(), 1);
}

#[test]
fn ipv6_peers_differing_only_in_flow_information_are_distinct() {
    let mut manager = ConnectionManager::new(3);
    let s = Metadata { created_at: SystemTime::UNIX_EPOCH };
    let plain = PeerAddr::with_flowinfo("[::1]:8080".to_string(), 0);
    let labelled = PeerAddr::with_flowinfo("[::1]:8080".to_string(), 7);
    assert!(!plain.same_as(&labelled));
    assert!(plain.same_as(&addr("[::1]:8080")));
    manager.insert(plain.clone(), s).unwrap();
    assert!(manager.get(&labelled).is_none());
    assert!(manager.insert(labelled.clone(), s).unwrap().is_none());
    assert_eq!(manager.num_connections(), 2);
    assert_eq!(labelled.to_string(), "[::1]:8080");
}
