use tower_dtls::addr::SocketAddr;
use tower_dtls::packet::UdpPacket;
use tower_dtls::router::{lookup, ClientConnRouter, ClientConnsMsg};

fn addr(port: u16) -> SocketAddr {
    SocketAddr::V4 { ipv4: 0x7f00_0001, port }
}

type Msg = ClientConnsMsg<String, u8>;

#[test]
fn new_router_knows_nobody() {
    let router = ClientConnRouter::<u8>::new();
    assert_eq!(router.len(), 0);
    assert!(!router.contains(addr(1)));
    assert!(router.get(addr(1)).is_none());
}

#[test]
fn inserted_client_is_found() {
    let mut router = ClientConnRouter::new();
    router.insert(addr(1), "a");
    router.insert(addr(2), "b");
    assert_eq!(router.get(addr(1)), Some(&"a"));
    assert_eq!(router.get(addr(2)), Some(&"b"));
    assert_eq!(router.get(addr(3)), None);
    assert_eq!(router.len(), 2);
}

#[test]
fn last_connection_counts() {
    let mut router = ClientConnRouter::new();
    router.insert(addr(1), "a");
    router.insert(addr(2), "b");
    router.insert(addr(1), "c");
    assert_eq!(router.get(addr(1)), Some(&"c"));
    assert_eq!(router.get(addr(2)), Some(&"b"));
    assert_eq!(router.len(), 2);
}

#[test]
fn leaving_undoes_connecting() {
    let mut router = ClientConnRouter::new();
    router.insert(addr(1), "a");
    router.insert(addr(2), "b");
    router.insert(addr(3), "c");
    assert_eq!(router.remove(addr(1)), Some("a"));
    assert_eq!(router.remove(addr(1)), None);
    assert!(!router.contains(addr(1)));
    assert_eq!(router.get(addr(2)), Some(&"b"));
    assert_eq!(router.get(addr(3)), Some(&"c"));
    assert_eq!(router.len(), 2);
}

#[test]
fn addresses_differ_by_every_part() {
    let mut router = ClientConnRouter::new();
    router.insert(SocketAddr::V6 { ipv6: 1, port: 2, flowinfo: 3, scope_id: 4 }, "a");
    assert!(router.contains(SocketAddr::V6 { ipv6: 1, port: 2, flowinfo: 3, scope_id: 4 }));
    assert!(!router.contains(SocketAddr::V6 { ipv6: 1, port: 2, flowinfo: 3, scope_id: 5 }));
    assert!(!router.contains(SocketAddr::V6 { ipv6: 1, port: 2, flowinfo: 0, scope_id: 4 }));
    assert!(!router.contains(SocketAddr::V4 { ipv4: 1, port: 2 }));
}

#[test]
fn messages_are_dealt_with() {
    let mut router = ClientConnRouter::new();
    assert!(router.handle(Msg::Insert(addr(1), "a".to_string())).is_none());
    assert!(router.handle(Msg::Insert(addr(2), "b".to_string())).is_none());
    assert_eq!(router.handle(Msg::Get(addr(2), 9)), Some((9, "b".to_string())));
    assert_eq!(router.handle(Msg::Get(addr(1), 8)), Some((8, "a".to_string())));
    assert!(router.handle(Msg::Remove(addr(1))).is_none());
    assert!(!router.contains(addr(1)));
    assert_eq!(router.handle(Msg::Get(addr(2), 7)), Some((7, "b".to_string())));
}

#[test]
fn packet_asks_for_its_own_client() {
    let msg: Msg = lookup(&UdpPacket::new(addr(4), vec![1u8]), 5);
    assert!(matches!(msg, ClientConnsMsg::Get(to, 5) if to == addr(4)));
}
