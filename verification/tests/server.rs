use nfc_bridge::ws::server::{
    dead_clients, keeps_broadcasting, stays_connected, ClientMap, Incoming, Received,
};

fn sorted(map: &ClientMap<&'static str>) -> Vec<u64> {
    let mut ids = map.client_ids();
    ids.sort();
    ids
}

#[test]
fn clients_come_and_go() {
    let mut map: ClientMap<&'static str> = ClientMap::new();
    assert!(map.client_ids().is_empty());
    assert!(!map.is_exhausted());
    assert_eq!(map.connect("a"), 0);
    assert_eq!(map.connect("b"), 1);
    assert_eq!(map.connect("c"), 2);
    assert_eq!(sorted(&map), vec![0, 1, 2]);
    assert_eq!(map.disconnect(1), Some("b"));
    assert_eq!(map.disconnect(1), None);
    assert_eq!(map.disconnect(7), None);
    assert_eq!(sorted(&map), vec![0, 2]);
}

#[test]
fn identifiers_are_not_reused() {
    let mut map: ClientMap<&'static str> = ClientMap::new();
    assert_eq!(map.connect("a"), 0);
    assert_eq!(map.disconnect(0), Some("a"));
    assert_eq!(map.connect("b"), 1);
    map.remove_dead(&vec![1]);
    assert_eq!(map.connect("c"), 2);
    assert_eq!(sorted(&map), vec![2]);
}

#[test]
fn unreachable_clients_are_removed() {
    let mut map: ClientMap<&'static str> = ClientMap::new();
    map.connect("a");
    map.connect("b");
    map.connect("c");
    map.remove_dead(&vec![]);
    assert_eq!(sorted(&map), vec![0, 1, 2]);
    map.remove_dead(&vec![2, 0, 2, 9]);
    assert_eq!(sorted(&map), vec![1]);
    assert_eq!(map.disconnect(1), Some("b"));
}

#[test]
fn sinks_are_put_back() {
    let mut map: ClientMap<&'static str> = ClientMap::new();
    map.connect("a");
    map.connect("b");
    let sink = map.disconnect(0).unwrap();
    assert_eq!(sorted(&map), vec![1]);
    map.put_back(0, sink);
    assert_eq!(sorted(&map), vec![0, 1]);
    assert_eq!(map.disconnect(0), Some("a"));
}

#[test]
fn incoming_messages() {
    assert!(!stays_connected(Incoming::Close));
    assert!(!stays_connected(Incoming::Failed));
    assert!(stays_connected(Incoming::Ping));
    assert!(stays_connected(Incoming::Other));
}

#[test]
fn broadcast_round() {
    let mut map: ClientMap<&'static str> = ClientMap::new();
    map.connect("a");
    map.connect("b");
    map.connect("c");
    let ids = map.client_ids();
    let mut sent = vec![];
    for id in &ids {
        let sink = map.disconnect(*id).unwrap();
        sent.push(sink != "b");
        map.put_back(*id, sink);
    }
    let dead = dead_clients(&ids, &sent);
    assert_eq!(dead, vec![1]);
    map.remove_dead(&dead);
    assert_eq!(sorted(&map), vec![0, 2]);
    assert_eq!(map.disconnect(2), Some("c"));
    assert!(dead_clients(&vec![4, 2], &vec![true, true]).is_empty());
    assert_eq!(dead_clients(&vec![4, 2], &vec![false, false]), vec![4, 2]);
}

#[test]
fn broadcasting_survives_a_lag() {
    assert!(keeps_broadcasting(Received::Event));
    assert!(keeps_broadcasting(Received::Lagged));
    assert!(!keeps_broadcasting(Received::Closed));
}
