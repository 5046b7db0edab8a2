use conncore::connector::{Connector, ConnectorBuilder};
use conncore::errors::ConnError;
use conncore::proxy::{DirectTunnel, Proxy, ProxyTunnel};
use conncore::socket::Sock;
use socket2::{Domain, Protocol, Socket, Type};

fn wildcard_addr() -> socket2::SockAddr {
    let probe = Socket::new(Domain::IPV4, Type::STREAM, Some(Protocol::TCP)).unwrap();
    probe.local_addr().unwrap()
}

#[test]
fn uri_connect_through_the_direct_tunnel_reuses_the_address_connect() {
    let connector = ConnectorBuilder::default().build().unwrap();
    let tunnel = DirectTunnel { addr: wildcard_addr() };
    let target = http::Uri::from_static("http://unreachable.invalid/");
    // Port zero never accepts a connect, so the address-based connect the
    // tunnel delegates to must surface its connect-kind error.
    match connector.connect_with_uri(&tunnel, &target) {
        Err(ConnError::Connect) => {}
        Err(other) => panic!("expected the connect kind, got {:?}", other),
        Ok(_) => panic!("port zero must not accept a connect"),
    }
}

/// A collaborator that only records what it was handed.
struct EchoTunnel {
    expected_proxy: Option<String>,
}

impl ProxyTunnel for EchoTunnel {
    fn tunnel(
        &self,
        _connector: &Connector,
        target: &http::Uri,
        proxy: &Option<Proxy>,
    ) -> Result<Sock, ConnError> {
        assert_eq!(target.host(), Some("target.internal"));
        match (&self.expected_proxy, proxy) {
            (None, None) => {}
            (Some(want), Some(got)) => assert_eq!(want, &got.addr),
            _ => panic!("the configured proxy descriptor was not carried unchanged"),
        }
        Err(ConnError::ProxyTunnel)
    }
}

#[test]
fn the_configured_proxy_descriptor_reaches_the_collaborator_unchanged() {
    let connector = ConnectorBuilder::default()
        .proxy(Some(Proxy::new(String::from("proxy.internal:3128"))))
        .build()
        .unwrap();
    let tunnel = EchoTunnel { expected_proxy: Some(String::from("proxy.internal:3128")) };
    let target = http::Uri::from_static("http://target.internal/");
    match connector.connect_with_uri(&tunnel, &target) {
        Err(ConnError::ProxyTunnel) => {}
        Err(other) => panic!("expected the tunnel kind, got {:?}", other),
        Ok(_) => panic!("the recording collaborator never connects"),
    }
}

#[test]
fn no_proxy_reaches_the_collaborator_as_none() {
    let connector = ConnectorBuilder::default().build().unwrap();
    let tunnel = EchoTunnel { expected_proxy: None };
    let target = http::Uri::from_static("http://target.internal/");
    assert!(matches!(
        connector.connect_with_uri(&tunnel, &target),
        Err(ConnError::ProxyTunnel)
    ));
}
