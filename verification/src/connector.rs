//! The connector: an immutable, builder-constructed configuration compiled
//! into an active component that opens raw streams, applies socket
//! options, optionally tunnels through a proxy, and performs the TLS
//! upgrade.

use crate::errors::ConnError;
use crate::handshake::run_handshake;
use crate::proxy::{Proxy, ProxyTunnel};
use crate::socket::{PlainStream, SecureStream, Sock, SockOpts};
use crate::tls::{TlsContext, TlsHandshake};
use vstd::prelude::*;
use vstd::std_specs::cmp::PartialEqSpec;

verus! {

/// The configuration a connector is built from, as a mathematical value:
/// what the builder's fields hold, with the proxy descriptor reduced to
/// its text.
pub struct ConfigView {
    /// Whether the peer's certificate must match the requested hostname.
    pub hostname_verification: bool,
    /// Whether the peer's certificate must be valid and unexpired.
    pub certs_verification: bool,
    /// The per-read timeout, in milliseconds.
    pub read_timeout_ms: Option<u64>,
    /// The per-write timeout, in milliseconds.
    pub write_timeout_ms: Option<u64>,
    /// The bound on the connect phase, in milliseconds.
    pub connect_timeout_ms: Option<u64>,
    /// Whether sockets get the no-delay option.
    pub nodelay: bool,
    /// The proxy descriptor's text, when one is configured.
    pub proxy: Option<Seq<char>>,
}

/// The maximally permissive default configuration: no verification, no
/// timeouts, no-delay off, no proxy.
pub open spec fn default_config() -> ConfigView {
    ConfigView {
        hostname_verification: false,
        certs_verification: false,
        read_timeout_ms: None,
        write_timeout_ms: None,
        connect_timeout_ms: None,
        nodelay: false,
        proxy: None,
    }
}

/// The fluent configuration builder. Every setter accepts its value as-is
/// (validation happens nowhere before `build`), and later writes to the
/// same field win over earlier ones.
#[derive(Debug)]
pub struct ConnectorBuilder {
    hostname_verification: bool,
    certs_verification: bool,
    read_timeout: Option<u64>,
    write_timeout: Option<u64>,
    connect_timeout: Option<u64>,
    nodelay: bool,
    proxy: Option<Proxy>,
}

impl View for ConnectorBuilder {
    type V = ConfigView;

    closed spec fn view(&self) -> ConfigView {
        ConfigView {
            hostname_verification: self.hostname_verification,
            certs_verification: self.certs_verification,
            read_timeout_ms: self.read_timeout,
            write_timeout_ms: self.write_timeout,
            connect_timeout_ms: self.connect_timeout,
            nodelay: self.nodelay,
            proxy: match self.proxy {
                Some(p) => Some(p@),
                None => None,
            },
        }
    }
}

impl Default for ConnectorBuilder {
    /// The permissive defaults: every flag off, every timeout absent.
    fn default() -> (r: ConnectorBuilder)
        ensures
            r@ == default_config(),
    {
        ConnectorBuilder {
            hostname_verification: false,
            certs_verification: false,
            read_timeout: None,
            write_timeout: None,
            connect_timeout: None,
            nodelay: false,
            proxy: None,
        }
    }
}

impl ConnectorBuilder {
    /// Controls the use of hostname verification.
    ///
    /// Defaults to `false`: any hostname is accepted as valid.
    pub fn hostname_verification(self, value: bool) -> (r: ConnectorBuilder)
        ensures
            r@ == (ConfigView { hostname_verification: value, ..self@ }),
    {
        let mut b = self;
        b.hostname_verification = value;
        b
    }

    /// Controls the use of certificate validation.
    ///
    /// Defaults to `false`: invalid and expired certificates are accepted.
    pub fn certs_verification(self, value: bool) -> (r: ConnectorBuilder)
        ensures
            r@ == (ConfigView { certs_verification: value, ..self@ }),
    {
        let mut b = self;
        b.certs_verification = value;
        b
    }

    /// Set whether every socket gets the no-delay option.
    ///
    /// Default is `false`: the OS keeps small-packet coalescing on.
    pub fn nodelay(self, value: bool) -> (r: ConnectorBuilder)
        ensures
            r@ == (ConfigView { nodelay: value, ..self@ }),
    {
        let mut b = self;
        b.nodelay = value;
        b
    }

    /// Enables a per-read timeout, in milliseconds; it resets after every
    /// successful read. `None` (the default) means no timeout.
    pub fn read_timeout(self, timeout: Option<u64>) -> (r: ConnectorBuilder)
        ensures
            r@ == (ConfigView { read_timeout_ms: timeout, ..self@ }),
    {
        let mut b = self;
        b.read_timeout = timeout;
        b
    }

    /// Enables a per-write timeout, in milliseconds; it resets after every
    /// successful write. `None` (the default) means no timeout.
    pub fn write_timeout(self, timeout: Option<u64>) -> (r: ConnectorBuilder)
        ensures
            r@ == (ConfigView { write_timeout_ms: timeout, ..self@ }),
    {
        let mut b = self;
        b.write_timeout = timeout;
        b
    }

    /// Bound the connect phase to the given number of milliseconds; `None`
    /// (the default) lets the connect block until the OS decides.
    pub fn connect_timeout(self, timeout: Option<u64>) -> (r: ConnectorBuilder)
        ensures
            r@ == (ConfigView { connect_timeout_ms: timeout, ..self@ }),
    {
        let mut b = self;
        b.connect_timeout = timeout;
        b
    }

    /// Route connections through the given proxy; `None` (the default)
    /// connects directly.
    pub fn proxy(self, addr: Option<Proxy>) -> (r: ConnectorBuilder)
        ensures
            r@ == (ConfigView {
                proxy: match addr {
                    Some(p) => Some(p@),
                    None => None,
                },
                ..self@
            }),
    {
        let mut b = self;
        b.proxy = addr;
        b
    }

    /// Combine this configuration with an already-compiled TLS context.
    /// This never fails: no configuration value is validated, so once a
    /// context exists a connector is owed, carrying this configuration
    /// and that context's policy.
    pub fn build_with_context(&self, tls: TlsContext) -> (c: Connector)
        ensures
            c.config() == self@,
            c.accepts_invalid() == tls@,
    {
        let proxy = match &self.proxy {
            Some(p) => Some(p.clone()),
            None => None,
        };
        Connector {
            connect_timeout: self.connect_timeout,
            nodelay: self.nodelay,
            read_timeout: self.read_timeout,
            write_timeout: self.write_timeout,
            proxy,
            tls,
            hostname_verification: Ghost(self.hostname_verification),
            certs_verification: Ghost(self.certs_verification),
        }
    }

    /// Compile this configuration into a connector. The TLS context is
    /// built exactly once, here, from the verification flags with the
    /// opposite polarity: verification turned on means the matching
    /// "accept invalid" behaviour is turned off. No network I/O happens,
    /// and the one failure source is the security context's own
    /// construction: with a context in hand, `build_with_context` owes a
    /// connector for every configuration.
    pub fn build(&self) -> (r: Result<Connector, ConnError>)
        ensures
            r matches Ok(c) ==> c.config() == self@ && c.accepts_invalid() == (
                !self@.hostname_verification,
                !self@.certs_verification,
            ),
            r matches Err(e) ==> e == ConnError::TlsConfig,
    {
        match TlsContext::compile(!self.hostname_verification, !self.certs_verification) {
            Ok(tls) => Ok(self.build_with_context(tls)),
            Err(e) => Err(e),
        }
    }
}

/// Whether two optional millisecond values are the same.
fn opt_ms_eq(a: &Option<u64>, b: &Option<u64>) -> (r: bool)
    ensures
        r <==> *a == *b,
{
    match (a, b) {
        (None, None) => true,
        (Some(x), Some(y)) => x == y,
        _ => false,
    }
}

impl PartialEq for ConnectorBuilder {
    /// Builders are equal exactly when every configuration value is.
    fn eq(&self, other: &Self) -> (r: bool) {
        let proxy_eq: bool = match (&self.proxy, &other.proxy) {
            (None, None) => true,
            (Some(a), Some(b)) => a.addr == b.addr,
            _ => false,
        };
        self.hostname_verification == other.hostname_verification
            && self.certs_verification == other.certs_verification
            && opt_ms_eq(&self.read_timeout, &other.read_timeout)
            && opt_ms_eq(&self.write_timeout, &other.write_timeout)
            && opt_ms_eq(&self.connect_timeout, &other.connect_timeout)
            && self.nodelay == other.nodelay && proxy_eq
    }
}

impl vstd::std_specs::cmp::PartialEqSpecImpl for ConnectorBuilder {
    open spec fn obeys_eq_spec() -> bool {
        true
    }

    open spec fn eq_spec(&self, other: &Self) -> bool {
        self@ == other@
    }
}

/// Law: builder equality is configuration equality — two builders compare
/// equal exactly when they hold the same configuration values.
pub proof fn lemma_builder_eq_is_config_eq(a: &ConnectorBuilder, b: &ConnectorBuilder)
    ensures
        a.eq_spec(b) <==> a@ == b@,
{
}

/// Law: builder updates are last-write-wins — setting the read timeout and
/// then clearing it yields the configuration that only cleared it, so by
/// `connect_with_addr`'s contract no read timeout is applied at connect
/// time.
pub proof fn lemma_read_timeout_last_write_wins(c: ConfigView, d: u64)
    ensures
        (ConfigView { read_timeout_ms: None, ..(ConfigView { read_timeout_ms: Some(d), ..c }) })
            == (ConfigView { read_timeout_ms: None, ..c }),
{
}

/// The active component: the configuration fields copied out of the
/// builder, plus the TLS context compiled once from the verification
/// flags. It holds no per-connection state and is reused across connects.
pub struct Connector {
    connect_timeout: Option<u64>,
    nodelay: bool,
    read_timeout: Option<u64>,
    write_timeout: Option<u64>,
    proxy: Option<Proxy>,
    tls: TlsContext,
    hostname_verification: Ghost<bool>,
    certs_verification: Ghost<bool>,
}

impl PartialEq for Connector {
    /// The compiled TLS context has no value equality, so equality over
    /// the active connector compares configuration only — and since every
    /// connector's context was compiled from its configuration, any two
    /// connectors compare equal here; the builder is the configuration
    /// value object that carries meaningful comparison.
    fn eq(&self, _other: &Self) -> bool {
        true
    }
}

impl vstd::std_specs::cmp::PartialEqSpecImpl for Connector {
    open spec fn obeys_eq_spec() -> bool {
        true
    }

    open spec fn eq_spec(&self, _other: &Self) -> bool {
        true
    }
}

/// Law: connector equality is configuration-comparison only — it never
/// distinguishes two connectors by their compiled TLS contexts.
pub proof fn lemma_connector_eq_is_config_only(a: &Connector, b: &Connector)
    ensures
        a.eq_spec(b),
{
}

impl Default for Connector {
    /// A functioning connector with the maximally permissive defaults:
    /// its context accepts invalid hostnames and invalid certificates.
    /// Defaults cannot legitimately fail to compile, so this is not
    /// fallible from the caller's perspective.
    fn default() -> (r: Connector)
        ensures
            r.config() == default_config(),
            r.accepts_invalid() == (true, true),
    {
        Connector {
            connect_timeout: None,
            nodelay: false,
            read_timeout: None,
            write_timeout: None,
            proxy: None,
            tls: TlsContext::permissive(),
            hostname_verification: Ghost(false),
            certs_verification: Ghost(false),
        }
    }
}

impl Connector {
    /// The configuration this connector was built from.
    pub closed spec fn config(&self) -> ConfigView {
        ConfigView {
            hostname_verification: self.hostname_verification@,
            certs_verification: self.certs_verification@,
            read_timeout_ms: self.read_timeout,
            write_timeout_ms: self.write_timeout,
            connect_timeout_ms: self.connect_timeout,
            nodelay: self.nodelay,
            proxy: match self.proxy {
                Some(p) => Some(p@),
                None => None,
            },
        }
    }

    /// The pair (accept invalid hostnames, accept invalid certificates)
    /// this connector's TLS context was compiled with: the exact negation
    /// of the configuration's verification flags.
    pub closed spec fn accepts_invalid(&self) -> (bool, bool) {
        self.tls@
    }

    /// Connect to a remote endpoint by resolved address: allocate a raw
    /// TCP socket for the address family, apply the configured options,
    /// and connect — bounded when a connect timeout is configured,
    /// blocking otherwise.
    ///
    /// On success the stream is plain and carries exactly the configured
    /// options: no-delay as configured (the OS default is preserved when
    /// it is off), both timeouts as configured (`None` leaves none
    /// applied), and the connect bound as configured. Failures to
    /// allocate or to apply an option surface as the setup kind — never
    /// swallowed — and a failed or timed-out connect as the connect kind;
    /// nothing is retried.
    pub fn connect_with_addr(&self, addr: &socket2::SockAddr) -> (r: Result<Sock, ConnError>)
        ensures
            r matches Ok(s) ==> s.is_plain() && s.spec_opts() == (SockOpts {
                nodelay: self.config().nodelay,
                read_timeout_ms: self.config().read_timeout_ms,
                write_timeout_ms: self.config().write_timeout_ms,
                connected: true,
                connect_bound_ms: self.config().connect_timeout_ms,
            }),
            r matches Err(e) ==> e == ConnError::SocketSetup || e == ConnError::Connect,
    {
        let mut p = match PlainStream::open_tcp(addr) {
            Ok(p) => p,
            Err(_) => {
                return Err(ConnError::SocketSetup);
            },
        };
        if self.nodelay {
            match p.set_nodelay(true) {
                Ok(u) => u,
                Err(_) => {
                    return Err(ConnError::SocketSetup);
                },
            };
        }
        match p.set_read_timeout(self.read_timeout) {
            Ok(u) => u,
            Err(_) => {
                return Err(ConnError::SocketSetup);
            },
        };
        match p.set_write_timeout(self.write_timeout) {
            Ok(u) => u,
            Err(_) => {
                return Err(ConnError::SocketSetup);
            },
        };
        match self.connect_timeout {
            None => {
                match p.connect(addr) {
                    Ok(u) => u,
                    Err(_) => {
                        return Err(ConnError::Connect);
                    },
                };
            },
            Some(ms) => {
                match p.connect_bounded(addr, ms) {
                    Ok(u) => u,
                    Err(_) => {
                        return Err(ConnError::Connect);
                    },
                };
            },
        }
        Ok(Sock::Plain(p))
    }

    /// Connect to a remote endpoint by target URI: delegate entirely to
    /// the tunneling collaborator, passing this connector so the
    /// collaborator reuses the address-based connect for the proxy leg.
    /// The result is always a plain stream; the TLS upgrade, when the
    /// scheme demands one, is a separate explicit step.
    pub fn connect_with_uri<P: ProxyTunnel>(&self, tunnel: &P, target: &http::Uri) -> (r: Result<
        Sock,
        ConnError,
    >)
        ensures
            r matches Ok(s) ==> s.is_plain(),
    {
        tunnel.tunnel(self, target, &self.proxy)
    }

    /// Secure a plain stream by a TLS handshake against the given domain.
    ///
    /// A stream that is already secure is refused at once with the
    /// already-secured kind — a caller-logic error, reported before any
    /// I/O and never retried. Otherwise the handshake runs to completion
    /// through the resumable loop, and the secured stream keeps the
    /// options the plain stream carried; a terminal handshake failure
    /// surfaces as the handshake kind.
    pub fn upgrade_to_tls(&self, stream: Sock, domain: &str) -> (r: Result<Sock, ConnError>)
        ensures
            stream.is_secure() ==> r == Err::<Sock, ConnError>(ConnError::AlreadySecured),
            r matches Ok(s) ==> s.is_secure() && stream.is_plain() && s.spec_opts()
                == stream.spec_opts(),
            stream.is_plain() ==> (r matches Err(e) ==> e == ConnError::TlsHandshake),
    {
        match stream {
            Sock::Secure(_) => Err(ConnError::AlreadySecured),
            Sock::Plain(p) => {
                let (inner, opts) = p.into_parts();
                match run_handshake(TlsHandshake::Start(&self.tls, domain, inner)) {
                    Ok(t) => Ok(Sock::Secure(SecureStream::wrap(t, opts))),
                    Err(_) => Err(ConnError::TlsHandshake),
                }
            },
        }
    }
}

} // verus!
