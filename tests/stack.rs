use rips::arp::{ArpTable, TxConstructor, TxError};
use rips::demux::ListenerRegistry;
use rips::udp::{
    build_udp_datagram, udp_port_to_dispatch, UdpRx, Datagram, RecvError, SendStep,
    UdpSocket, UdpSocketListener, UdpSocketReader,
};

#[test]
fn lookup_returns_latest_reply() {
    let mut t = ArpTable::new();
    assert_eq!(t.lookup(0x0a010202), None);
    let _ = t.on_reply(0x0a010202, 0x090000040000);
    assert_eq!(t.lookup(0x0a010202), Some(0x090000040000));
    let _ = t.on_reply(0x0a010202, 0x0a0000000001);
    assert_eq!(t.lookup(0x0a010202), Some(0x0a0000000001));
    assert_eq!(t.lookup(0x0a010203), None);
}

#[test]
fn revision_counts_changes_only() {
    let mut t = ArpTable::new();
    assert_eq!(t.revision(), 0);
    let _ = t.on_reply(1, 100);
    assert_eq!(t.revision(), 1);
    let _ = t.on_reply(1, 100);
    assert_eq!(t.revision(), 1);
    let _ = t.on_reply(1, 101);
    assert_eq!(t.revision(), 2);
    let _ = t.on_reply(2, 101);
    assert_eq!(t.revision(), 3);
}

#[test]
fn waiters_released_by_matching_reply() {
    let mut t = ArpTable::new();
    assert_eq!(t.resolve_or_wait(7, 1), None);
    assert_eq!(t.resolve_or_wait(7, 2), None);
    assert_eq!(t.resolve_or_wait(7, 3), None);
    assert_eq!(t.resolve_or_wait(8, 4), None);
    let other = t.on_reply(9, 55);
    assert!(other.is_empty());
    let released = t.on_reply(7, 42);
    assert_eq!(released, vec![1, 2, 3]);
    assert_eq!(t.resolve_or_wait(7, 5), Some(42));
    let reconfirm = t.on_reply(7, 42);
    assert!(reconfirm.is_empty());
    assert_eq!(t.on_reply(8, 43), vec![4]);
}

#[test]
fn stale_constructor_rejected() {
    let mut t = ArpTable::new();
    assert_eq!(t.tx_for(5), None);
    let _ = t.on_reply(5, 77);
    let tx = t.tx_for(5).unwrap();
    assert_eq!(tx, TxConstructor { dst: 5, mac: 77, revision: 1 });
    assert_eq!(tx.prepare(t.revision()), Ok(77));
    let _ = t.on_reply(6, 78);
    assert_eq!(t.lookup(5), Some(77));
    assert_eq!(tx.prepare(t.revision()), Err(TxError::OutdatedConstructor));
}

#[test]
fn dispatch_without_handlers_is_empty() {
    let mut r = ListenerRegistry::new();
    assert!(r.dispatch(0x0806).is_empty());
    r.register(0x0800, 10);
    r.register(0x0800, 11);
    r.register(17, 12);
    assert_eq!(r.dispatch(0x0800), vec![10, 11]);
    assert_eq!(r.dispatch(17), vec![12]);
    r.unregister(0x0800);
    assert!(r.dispatch(0x0800).is_empty());
}

#[test]
fn udp_length_checks() {
    assert_eq!(udp_port_to_dispatch(&vec![0, 1, 0, 53, 0, 8]), None);
    assert_eq!(udp_port_to_dispatch(&vec![0, 1, 0, 53, 0, 10, 0, 0, 9, 55]), Some(53));
    assert_eq!(udp_port_to_dispatch(&vec![0, 1, 1, 2, 0, 11, 0, 0, 9, 55]), None);
    assert_eq!(udp_port_to_dispatch(&vec![0, 1, 1, 2, 0, 7, 0, 0, 9, 55]), None);
    assert_eq!(udp_port_to_dispatch(&vec![0, 1, 1, 2, 0, 8, 0, 0, 9, 55]), Some(258));
}

#[test]
fn reader_listener_taken_once() {
    let mut r = UdpSocketReader::new();
    assert_eq!(r.listener(), Some(UdpSocketListener { token: 0 }));
    assert_eq!(r.listener(), None);
}

#[test]
fn listener_feeds_its_own_reader() {
    let mut a = UdpSocketReader::paired(3);
    let mut b = UdpSocketReader::paired(4);
    let la = a.listener().unwrap();
    let d = Datagram { src_ip: 1, src_port: 2, payload: vec![7] };
    assert!(!la.recv(&mut b, d.clone()));
    assert!(la.recv(&mut a, d));
    let mut buf = vec![0u8; 1];
    assert_eq!(b.recv_from(&mut buf), Err(RecvError::Empty));
    assert_eq!(a.recv_from(&mut buf), Ok((1, 1, 2)));
    assert_eq!(buf, vec![7]);
}

#[test]
fn socket_end_to_end() {
    let mut registry = ListenerRegistry::new();
    let mut sock = UdpSocket::bind(&mut registry, 1024, 1);
    assert_eq!(sock.local_port(), 1024);
    let frame = vec![0x30, 0x39, 0x04, 0x00, 0, 10, 0, 0, 9, 55];
    let port = udp_port_to_dispatch(&frame).unwrap();
    assert_eq!(registry.dispatch(port), vec![1]);
    for h in registry.dispatch(port) {
        let d = Datagram { src_ip: 0x0a010202, src_port: 12345, payload: frame[8..].to_vec() };
        assert!(sock.deliver(h, d));
    }
    let other = vec![0x30, 0x39, 0x04, 0x01, 0, 10, 0, 0, 9, 55];
    let other_port = udp_port_to_dispatch(&other).unwrap();
    assert!(registry.dispatch(other_port).is_empty());
    let mut buf = vec![0u8; 4];
    assert_eq!(sock.recv_from(&mut buf), Ok((2, 0x0a010202, 12345)));
    assert_eq!(buf, vec![9, 55, 0, 0]);
    assert_eq!(sock.recv_from(&mut buf), Err(RecvError::Empty));
}

#[test]
fn recv_from_buffer_too_small_consumes() {
    let mut reg = ListenerRegistry::new();
    let mut sock = UdpSocket::bind(&mut reg, 9, 6);
    assert!(sock.deliver(6, Datagram { src_ip: 1, src_port: 2, payload: vec![1, 2, 3] }));
    assert!(sock.deliver(6, Datagram { src_ip: 3, src_port: 4, payload: vec![5] }));
    assert!(!sock.deliver(7, Datagram { src_ip: 5, src_port: 6, payload: vec![8] }));
    let mut buf = vec![0u8; 2];
    assert_eq!(sock.recv_from(&mut buf), Err(RecvError::BufferTooSmall));
    assert_eq!(sock.recv_from(&mut buf), Ok((1, 3, 4)));
    assert_eq!(buf, vec![5, 0]);
}

#[test]
fn send_on_cached_tx_rebuild() {
    let mut t = ArpTable::new();
    let _ = t.on_reply(0x0a010202, 99);
    let mut reg = ListenerRegistry::new();
    let mut sock = UdpSocket::bind(&mut reg, 5000, 1);
    let payload = vec![9, 55];
    let expected = build_udp_datagram(0x0a010203, 0x0a010202, 5000, 53, &payload).unwrap();
    assert_eq!(sock.send_on_cached_tx(&t, 0x0a010203, &payload, 0x0a010202, 53), Err(TxError::OutdatedConstructor));
    sock.cache_tx(0x0a010202, 53, t.tx_for(0x0a010202).unwrap());
    assert_eq!(sock.send_on_cached_tx(&t, 0x0a010203, &payload, 0x0a010202, 53), Ok((99, expected)));
    assert_eq!(sock.send_on_cached_tx(&t, 0x0a010203, &payload, 0x0a010202, 54), Err(TxError::OutdatedConstructor));
    assert_eq!(sock.send_on_cached_tx(&t, 0x0a010203, &vec![0u8; 65528], 0x0a010202, 53), Err(TxError::TooLargePayload));
    let _ = t.on_reply(0x0a010202, 100);
    assert_eq!(sock.send_on_cached_tx(&t, 0x0a010203, &payload, 0x0a010202, 53), Err(TxError::OutdatedConstructor));
}

fn emitted(s: SendStep) -> Option<(u64, u8, u32, Vec<u8>)> {
    match s {
        SendStep::Emit { mac, protocol, dst, datagram } => Some((mac, protocol, dst, datagram)),
        _ => None,
    }
}

#[test]
fn send_to_step_rebuilds_once() {
    let mut t = ArpTable::new();
    let mut reg = ListenerRegistry::new();
    let mut sock = UdpSocket::bind(&mut reg, 5000, 1);
    let payload = vec![1, 2, 3];
    assert!(matches!(sock.send_to_step(&t, 10, &payload, 20, 53, false), SendStep::Resolve));
    let _ = t.on_reply(20, 0xaabb);
    let expected = build_udp_datagram(10, 20, 5000, 53, &payload).unwrap();
    assert_eq!(emitted(sock.send_to_step(&t, 10, &payload, 20, 53, true)), None);
    assert_eq!(emitted(sock.send_to_step(&t, 10, &payload, 20, 53, false)), Some((0xaabb, 17, 20, expected.clone())));
    assert_eq!(emitted(sock.send_to_step(&t, 10, &payload, 20, 53, true)), Some((0xaabb, 17, 20, expected)));
    let _ = t.on_reply(21, 0xccdd);
    assert!(matches!(
        sock.send_to_step(&t, 10, &payload, 20, 53, true),
        SendStep::Failed(TxError::OutdatedConstructor)
    ));
    assert!(matches!(
        sock.send_to_step(&t, 10, &vec![0u8; 65528], 20, 53, false),
        SendStep::Failed(TxError::TooLargePayload)
    ));
}

#[test]
fn arp_request_needs_reply_only_when_awaited() {
    let mut t = ArpTable::new();
    assert!(!t.on_request(5));
    assert_eq!(t.resolve_or_wait(5, 1), None);
    assert!(t.on_request(5));
    let _ = t.on_reply(5, 9);
    assert!(!t.on_request(5));
}

#[test]
fn udp_port_keeps_one_handler() {
    let mut r = ListenerRegistry::new();
    let _a = UdpSocket::bind(&mut r, 53, 1);
    let _b = UdpSocket::bind(&mut r, 53, 2);
    assert_eq!(r.dispatch(53), vec![2]);
}

#[test]
fn udp_rx_dispatches_by_port() {
    let mut rx = UdpRx::new(ListenerRegistry::new());
    let mut sock = UdpSocket::bind(&mut rx.listeners, 1024, 5);
    let matching = vec![0x30, 0x39, 0x04, 0x00, 0, 10, 0, 0, 9, 55];
    let other = vec![0x30, 0x39, 0x04, 0x01, 0, 10, 0, 0, 9, 55];
    let short = vec![0x30, 0x39, 0x04, 0x00, 0, 10, 0];
    assert!(rx.recv(&other).is_empty());
    assert!(rx.recv(&short).is_empty());
    for h in rx.recv(&matching) {
        assert!(sock.deliver(h, Datagram { src_ip: 9, src_port: 12345, payload: matching[8..].to_vec() }));
    }
    let mut buf = vec![0u8; 2];
    assert_eq!(sock.recv_from(&mut buf), Ok((2, 9, 12345)));
    assert_eq!(buf, vec![9, 55]);
    assert_eq!(sock.recv_from(&mut buf), Err(RecvError::Empty));
}
