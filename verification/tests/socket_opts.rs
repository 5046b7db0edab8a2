use conncore::connector::ConnectorBuilder;
use conncore::errors::ConnError;
use conncore::socket::PlainStream;
use socket2::{Domain, Protocol, Socket, Type};
use std::time::Duration;

/// An address with the local wildcard host and port zero: enough to pick
/// the address family when allocating, and guaranteed not to accept a
/// connect.
fn wildcard_addr() -> socket2::SockAddr {
    let probe = Socket::new(Domain::IPV4, Type::STREAM, Some(Protocol::TCP)).unwrap();
    probe.local_addr().unwrap()
}

#[test]
fn nodelay_is_applied_to_the_raw_socket() {
    let addr = wildcard_addr();
    let mut p = PlainStream::open_tcp(&addr).unwrap();
    assert!(!p.inner.tcp_nodelay().unwrap());
    p.set_nodelay(true).unwrap();
    assert!(p.inner.tcp_nodelay().unwrap());
    p.set_nodelay(false).unwrap();
    assert!(!p.inner.tcp_nodelay().unwrap());
}

#[test]
fn read_timeout_set_then_cleared_leaves_none_applied() {
    let addr = wildcard_addr();
    let mut p = PlainStream::open_tcp(&addr).unwrap();
    p.set_read_timeout(Some(5_000)).unwrap();
    assert_eq!(
        p.inner.read_timeout().unwrap(),
        Some(Duration::from_millis(5_000))
    );
    p.set_read_timeout(None).unwrap();
    assert_eq!(p.inner.read_timeout().unwrap(), None);
}

#[test]
fn write_timeout_is_applied_in_milliseconds() {
    let addr = wildcard_addr();
    let mut p = PlainStream::open_tcp(&addr).unwrap();
    p.set_write_timeout(Some(7_000)).unwrap();
    assert_eq!(
        p.inner.write_timeout().unwrap(),
        Some(Duration::from_millis(7_000))
    );
}

#[test]
fn a_failed_connect_surfaces_the_connect_kind() {
    let addr = wildcard_addr();
    let connector = ConnectorBuilder::default().build().unwrap();
    match connector.connect_with_addr(&addr) {
        Err(ConnError::Connect) => {}
        Err(other) => panic!("expected the connect kind, got {:?}", other),
        Ok(_) => panic!("port zero must not accept a connect"),
    }
}

#[test]
fn a_failed_bounded_connect_surfaces_the_connect_kind() {
    let addr = wildcard_addr();
    let connector = ConnectorBuilder::default()
        .nodelay(true)
        .read_timeout(Some(200))
        .write_timeout(Some(200))
        .connect_timeout(Some(50))
        .build()
        .unwrap();
    match connector.connect_with_addr(&addr) {
        Err(ConnError::Connect) => {}
        Err(other) => panic!("expected the connect kind, got {:?}", other),
        Ok(_) => panic!("port zero must not accept a connect"),
    }
}
