//! Error taxonomy for connection establishment.
//!
//! Every failure is surfaced to the immediate caller as one of these kinds,
//! so that callers can tell configuration mistakes (an already-secured
//! socket, an unusable TLS configuration) apart from network faults (a
//! failed connect, a failed handshake) and choose their own retry policy.

use vstd::prelude::*;

verus! {

/// The kinds of failure a connector can report.
#[derive(Debug, Clone, Copy, PartialEq, Eq, Structural)]
pub enum ConnError {
    /// Allocating the raw socket or applying a socket option failed.
    SocketSetup,
    /// The connect itself failed or timed out.
    Connect,
    /// The TLS context could not be constructed.
    TlsConfig,
    /// The TLS handshake failed terminally.
    TlsHandshake,
    /// A TLS upgrade was attempted on a socket that is already secure.
    AlreadySecured,
    /// The proxy tunneling collaborator failed to reach the target.
    ProxyTunnel,
}

impl ConnError {
    /// A short human-readable description of the error kind.
    pub fn describe(&self) -> (r: &'static str)
        ensures
            r@ =~= self.spec_describe(),
    {
        match self {
            ConnError::SocketSetup => "socket allocation or option setting failed",
            ConnError::Connect => "connect failed or timed out",
            ConnError::TlsConfig => "TLS context construction failed",
            ConnError::TlsHandshake => "TLS handshake failed",
            ConnError::AlreadySecured => "it's already tls",
            ConnError::ProxyTunnel => "proxy tunnel negotiation failed",
        }
    }

    /// What `describe` returns for each kind.
    pub open spec fn spec_describe(self) -> Seq<char> {
        match self {
            ConnError::SocketSetup => "socket allocation or option setting failed"@,
            ConnError::Connect => "connect failed or timed out"@,
            ConnError::TlsConfig => "TLS context construction failed"@,
            ConnError::TlsHandshake => "TLS handshake failed"@,
            ConnError::AlreadySecured => "it's already tls"@,
            ConnError::ProxyTunnel => "proxy tunnel negotiation failed"@,
        }
    }
}

} // verus!
