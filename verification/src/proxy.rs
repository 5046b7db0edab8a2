//! The proxy boundary: the descriptor carried in the configuration, and
//! the tunneling collaborator that turns a target URI into a plain stream.
//!
//! The proxy protocol's own byte-level exchange is not this crate's logic:
//! it lives behind the [`ProxyTunnel`] capability, which receives the
//! connector so it can reuse the address-based connect and socket-option
//! logic for the proxy leg.

use crate::connector::Connector;
use crate::errors::ConnError;
use crate::socket::Sock;
use vstd::prelude::*;

verus! {

#[verifier::external_type_specification]
#[verifier::external_body]
/// A target URI (scheme, host, port), from http.
pub struct ExUri(http::Uri);

/// A forward-proxy descriptor. This core never interprets it: it is carried
/// unchanged from the configuration to the tunneling collaborator, and two
/// descriptors are the same exactly when their text is.
#[derive(Debug)]
pub struct Proxy {
    /// The proxy endpoint as the collaborator understands it.
    pub addr: String,
}

impl View for Proxy {
    type V = Seq<char>;

    open spec fn view(&self) -> Seq<char> {
        self.addr@
    }
}

impl Proxy {
    /// Wrap a proxy endpoint for the configuration to carry.
    pub fn new(addr: String) -> (r: Proxy)
        ensures
            r@ == addr@,
    {
        Proxy { addr }
    }
}

impl Clone for Proxy {
    fn clone(&self) -> (r: Self)
        ensures
            r@ == self@,
    {
        Proxy { addr: self.addr.clone() }
    }
}

/// The proxy tunneling collaborator: negotiates the proxy protocol (or
/// connects directly when no proxy is configured) and returns a stream
/// already positioned at the target.
pub trait ProxyTunnel {
    /// Produce a stream positioned at `target`, reusing `connector` for the
    /// raw leg and honouring `proxy` when one is configured. The result is
    /// always a plain stream: the TLS upgrade, when the scheme demands one,
    /// is a separate explicit step.
    fn tunnel(&self, connector: &Connector, target: &http::Uri, proxy: &Option<Proxy>) -> (r:
        Result<Sock, ConnError>)
        ensures
            r matches Ok(s) ==> s.is_plain(),
    ;
}

/// The no-proxy collaborator for callers that already hold a resolved
/// address: it ignores the URI and the (absent) proxy descriptor and
/// connects straight to that address.
pub struct DirectTunnel {
    /// The resolved target address.
    pub addr: socket2::SockAddr,
}

impl ProxyTunnel for DirectTunnel {
    fn tunnel(&self, connector: &Connector, target: &http::Uri, proxy: &Option<Proxy>) -> (r:
        Result<Sock, ConnError>)
    {
        connector.connect_with_addr(&self.addr)
    }
}

} // verus!
