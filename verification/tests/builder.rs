use conncore::connector::{Connector, ConnectorBuilder};
use conncore::proxy::Proxy;

#[test]
fn default_builders_are_equal() {
    let a = ConnectorBuilder::default();
    let b = ConnectorBuilder::default();
    assert!(a == b);
}

#[test]
fn read_timeout_last_write_wins() {
    let cleared = ConnectorBuilder::default()
        .read_timeout(Some(5))
        .read_timeout(None);
    let untouched = ConnectorBuilder::default();
    assert!(cleared == untouched);
}

#[test]
fn setters_change_the_configuration() {
    let tuned = ConnectorBuilder::default().nodelay(true);
    let plain = ConnectorBuilder::default();
    assert!(!(tuned == plain));

    let timed = ConnectorBuilder::default().read_timeout(Some(5));
    assert!(!(timed == plain));

    let write_timed = ConnectorBuilder::default().write_timeout(Some(7));
    assert!(!(write_timed == plain));

    let bounded = ConnectorBuilder::default().connect_timeout(Some(50));
    assert!(!(bounded == plain));

    let verifying = ConnectorBuilder::default()
        .hostname_verification(true)
        .certs_verification(true);
    assert!(!(verifying == plain));
}

#[test]
fn identical_configurations_compare_equal() {
    let a = ConnectorBuilder::default()
        .nodelay(true)
        .read_timeout(Some(30_000))
        .write_timeout(Some(30_000))
        .connect_timeout(Some(5_000))
        .proxy(Some(Proxy::new(String::from("http://proxy.internal:3128"))));
    let b = ConnectorBuilder::default()
        .nodelay(true)
        .read_timeout(Some(30_000))
        .write_timeout(Some(30_000))
        .connect_timeout(Some(5_000))
        .proxy(Some(Proxy::new(String::from("http://proxy.internal:3128"))));
    assert!(a == b);
}

#[test]
fn different_proxies_compare_unequal() {
    let a = ConnectorBuilder::default()
        .proxy(Some(Proxy::new(String::from("http://proxy-a.internal:3128"))));
    let b = ConnectorBuilder::default()
        .proxy(Some(Proxy::new(String::from("http://proxy-b.internal:3128"))));
    let none = ConnectorBuilder::default();
    assert!(!(a == b));
    assert!(!(a == none));
}

#[test]
fn built_connectors_compare_equal_regardless_of_configuration() {
    let a = ConnectorBuilder::default().nodelay(true).build().unwrap();
    let b = ConnectorBuilder::default()
        .connect_timeout(Some(50))
        .build()
        .unwrap();
    assert!(a == b);
}

#[test]
fn a_compiled_context_always_yields_a_connector() {
    let ctx = conncore::tls::TlsContext::compile(false, false).unwrap();
    let built = ConnectorBuilder::default()
        .hostname_verification(true)
        .certs_verification(true)
        .build_with_context(ctx);
    let other = ConnectorBuilder::default().build().unwrap();
    assert!(built == other);
}

#[test]
fn default_connector_is_available_and_equal_to_a_built_one() {
    let d = Connector::default();
    let built = ConnectorBuilder::default().build().unwrap();
    assert!(d == built);
}
