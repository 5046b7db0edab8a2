//! The socket abstraction: a tagged union over a plain TCP stream and a
//! TLS-secured stream, plus the thin layer over the OS socket facility.
//!
//! A plain stream carries a ghost record of the socket options that have
//! been applied to it, so that contracts can state which options a
//! connected socket ends up with: each method pairs one OS call with the
//! matching update of that record. Timeouts are carried as whole
//! milliseconds.

use vstd::prelude::*;

verus! {

#[verifier::external_type_specification]
#[verifier::external_body]
/// A raw OS stream socket, from socket2.
pub struct ExRawSocket(socket2::Socket);

#[verifier::external_type_specification]
#[verifier::external_body]
/// A resolved socket address (IP and port), from socket2.
pub struct ExSockAddr(socket2::SockAddr);

#[verifier::external_type_specification]
#[verifier::external_body]
/// The error the OS socket facility reports.
pub struct ExIoError(std::io::Error);

/// Relies on socket2::Socket::new, with the address's own domain
/// (socket2::SockAddr::domain), a stream type and the TCP protocol: it
/// allocates a raw socket matching the address family, with no connect
/// performed and every option this module models at its OS default
/// (socket2 additionally sets its usual platform flags, such as
/// close-on-exec, which this module does not model).
#[verifier::external_body]
fn raw_tcp_socket(addr: &socket2::SockAddr) -> (r: Result<socket2::Socket, std::io::Error>) {
    socket2::Socket::new(addr.domain(), socket2::Type::STREAM, Some(socket2::Protocol::TCP))
}

/// Relies on socket2::Socket::set_tcp_nodelay: standard socket option
/// semantics — on success the no-delay option holds the given value.
#[verifier::external_body]
fn raw_set_nodelay(sock: &socket2::Socket, value: bool) -> (r: Result<(), std::io::Error>) {
    sock.set_tcp_nodelay(value)
}

/// Relies on socket2::Socket::set_read_timeout: on success the per-read
/// timeout holds the given duration, and `None` clears it. A zero duration
/// is passed through as a zero timeval, which the OS reads as no timeout.
#[verifier::external_body]
fn raw_set_read_timeout(sock: &socket2::Socket, ms: Option<u64>) -> (r: Result<
    (),
    std::io::Error,
>) {
    sock.set_read_timeout(ms.map(std::time::Duration::from_millis))
}

/// Relies on socket2::Socket::set_write_timeout: on success the per-write
/// timeout holds the given duration, and `None` clears it. A zero duration
/// is passed through as a zero timeval, which the OS reads as no timeout.
#[verifier::external_body]
fn raw_set_write_timeout(sock: &socket2::Socket, ms: Option<u64>) -> (r: Result<
    (),
    std::io::Error,
>) {
    sock.set_write_timeout(ms.map(std::time::Duration::from_millis))
}

/// Relies on socket2::Socket::connect: it blocks until the OS reports the
/// connect as succeeded or failed.
#[verifier::external_body]
fn raw_connect(sock: &socket2::Socket, addr: &socket2::SockAddr) -> (r: Result<
    (),
    std::io::Error,
>) {
    sock.connect(addr)
}

/// Relies on socket2::Socket::connect_timeout: the connect waits at most
/// the given duration before reporting failure.
#[verifier::external_body]
fn raw_connect_timeout(sock: &socket2::Socket, addr: &socket2::SockAddr, ms: u64) -> (r: Result<
    (),
    std::io::Error,
>) {
    sock.connect_timeout(addr, std::time::Duration::from_millis(ms))
}

/// The socket options applied to a plain stream so far, together with
/// whether (and how) its connect was performed.
pub struct SockOpts {
    /// Whether the no-delay option is enabled. The OS default is `false`
    /// (small-packet coalescing stays on).
    pub nodelay: bool,
    /// The per-read timeout, in milliseconds; `None` means reads block
    /// indefinitely.
    pub read_timeout_ms: Option<u64>,
    /// The per-write timeout, in milliseconds; `None` means writes block
    /// indefinitely.
    pub write_timeout_ms: Option<u64>,
    /// Whether the stream has been connected to its remote endpoint.
    pub connected: bool,
    /// The bound, in milliseconds, that the connect was performed under;
    /// `None` means the connect was allowed to block until the OS decided.
    pub connect_bound_ms: Option<u64>,
}

impl SockOpts {
    /// The option state of a freshly allocated socket: every option is at
    /// its OS default and no connect has happened.
    pub open spec fn fresh() -> SockOpts {
        SockOpts {
            nodelay: false,
            read_timeout_ms: None,
            write_timeout_ms: None,
            connected: false,
            connect_bound_ms: None,
        }
    }
}

/// A plain (unsecured) byte stream: the raw socket plus the record of the
/// options applied to it.
pub struct PlainStream {
    /// The raw OS socket.
    pub inner: socket2::Socket,
    /// The options applied to `inner` so far. Private: the only writes are
    /// the ones below, each beside the OS call it records.
    opts: Ghost<SockOpts>,
}

impl View for PlainStream {
    type V = SockOpts;

    /// The options applied to this stream so far.
    closed spec fn view(&self) -> SockOpts {
        self.opts@
    }
}

impl PlainStream {
    /// Allocate a raw TCP socket matching the address family. A fresh
    /// stream has every option at its OS default and is not connected.
    pub fn open_tcp(addr: &socket2::SockAddr) -> (r: Result<PlainStream, std::io::Error>)
        ensures
            r matches Ok(p) ==> p@ == SockOpts::fresh(),
    {
        match raw_tcp_socket(addr) {
            Ok(s) => Ok(PlainStream { inner: s, opts: Ghost(SockOpts::fresh()) }),
            Err(e) => Err(e),
        }
    }

    /// Set or clear the no-delay option on the raw socket.
    pub fn set_nodelay(&mut self, value: bool) -> (r: Result<(), std::io::Error>)
        ensures
            r is Ok ==> final(self)@ == (SockOpts { nodelay: value, ..old(self)@ }),
    {
        match raw_set_nodelay(&self.inner, value) {
            Ok(u) => {
                self.opts = Ghost(SockOpts { nodelay: value, ..self.opts@ });
                Ok(u)
            },
            Err(e) => Err(e),
        }
    }

    /// Set or clear the per-read timeout on the raw socket; the timeout
    /// applies to each read and resets after a successful read.
    pub fn set_read_timeout(&mut self, ms: Option<u64>) -> (r: Result<(), std::io::Error>)
        ensures
            r is Ok ==> final(self)@ == (SockOpts {
                read_timeout_ms: ms,
                ..old(self)@
            }),
    {
        match raw_set_read_timeout(&self.inner, ms) {
            Ok(u) => {
                self.opts = Ghost(SockOpts { read_timeout_ms: ms, ..self.opts@ });
                Ok(u)
            },
            Err(e) => Err(e),
        }
    }

    /// Set or clear the per-write timeout on the raw socket; the timeout
    /// applies to each write and resets after a successful write.
    pub fn set_write_timeout(&mut self, ms: Option<u64>) -> (r: Result<(), std::io::Error>)
        ensures
            r is Ok ==> final(self)@ == (SockOpts {
                write_timeout_ms: ms,
                ..old(self)@
            }),
    {
        match raw_set_write_timeout(&self.inner, ms) {
            Ok(u) => {
                self.opts = Ghost(SockOpts { write_timeout_ms: ms, ..self.opts@ });
                Ok(u)
            },
            Err(e) => Err(e),
        }
    }

    /// Connect to the remote endpoint, blocking until the OS reports
    /// success or failure; the options applied so far are untouched.
    pub fn connect(&mut self, addr: &socket2::SockAddr) -> (r: Result<(), std::io::Error>)
        ensures
            r is Ok ==> final(self)@ == (SockOpts { connected: true, ..old(self)@ }),
    {
        match raw_connect(&self.inner, addr) {
            Ok(u) => {
                self.opts = Ghost(SockOpts { connected: true, ..self.opts@ });
                Ok(u)
            },
            Err(e) => Err(e),
        }
    }

    /// Connect to the remote endpoint, waiting at most `ms` milliseconds;
    /// the options applied so far are untouched.
    pub fn connect_bounded(&mut self, addr: &socket2::SockAddr, ms: u64) -> (r: Result<
        (),
        std::io::Error,
    >)
        ensures
            r is Ok ==> final(self)@ == (SockOpts {
                connected: true,
                connect_bound_ms: Some(ms),
                ..old(self)@
            }),
    {
        match raw_connect_timeout(&self.inner, addr, ms) {
            Ok(u) => {
                self.opts = Ghost(
                    SockOpts { connected: true, connect_bound_ms: Some(ms), ..self.opts@ },
                );
                Ok(u)
            },
            Err(e) => Err(e),
        }
    }
}

/// A TLS-secured byte stream: the secured stream wrapping the raw socket,
/// plus the record of the options the underlying plain stream had when it
/// was secured.
pub struct SecureStream {
    /// The TLS-wrapped stream.
    pub inner: native_tls::TlsStream<socket2::Socket>,
    /// The options the underlying socket had when the upgrade completed.
    /// Private: written only by `wrap` below, from a plain stream's record.
    opts: Ghost<SockOpts>,
}

impl View for SecureStream {
    type V = SockOpts;

    /// The options the underlying socket had when it was secured.
    closed spec fn view(&self) -> SockOpts {
        self.opts@
    }
}

impl PlainStream {
    /// Take the stream apart for securing: the raw socket to hand to the
    /// TLS engine, and the record of the options applied to it.
    pub(crate) fn into_parts(self) -> (r: (socket2::Socket, Ghost<SockOpts>))
        ensures
            r.1@ == self@,
    {
        (self.inner, self.opts)
    }
}

impl SecureStream {
    /// Wrap a completed TLS session around the record the plain stream
    /// carried into the handshake.
    pub(crate) fn wrap(
        inner: native_tls::TlsStream<socket2::Socket>,
        opts: Ghost<SockOpts>,
    ) -> (r: SecureStream)
        ensures
            r@ == opts@,
    {
        SecureStream { inner, opts }
    }
}

/// A usable byte-stream socket: either plain or secured. A secured socket
/// is never re-wrapped; upgrading it again is an error, not a no-op.
pub enum Sock {
    /// An unsecured TCP stream.
    Plain(PlainStream),
    /// A TLS session over a TCP stream.
    Secure(SecureStream),
}

impl Sock {
    /// Whether this socket is already secured.
    pub open spec fn is_secure(&self) -> bool {
        self matches Sock::Secure(_)
    }

    /// Whether this socket is a plain, unsecured stream.
    pub open spec fn is_plain(&self) -> bool {
        self matches Sock::Plain(_)
    }

    /// The options of the underlying stream, plain or secured.
    pub open spec fn spec_opts(&self) -> SockOpts {
        match self {
            Sock::Plain(p) => p@,
            Sock::Secure(s) => s@,
        }
    }

    /// Whether this socket is secured, decided without any I/O.
    pub fn secure(&self) -> (r: bool)
        ensures
            r == self.is_secure(),
    {
        match self {
            Sock::Plain(_) => false,
            Sock::Secure(_) => true,
        }
    }
}

} // verus!
