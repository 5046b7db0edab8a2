//! The TLS engine boundary: the compiled TLS context, and the native
//! handshake as an implementation of the resumable [`Handshake`]
//! capability.
//!
//! The engine's `connect` entry point either completes at once, fails
//! terminally, or hands back a partial, resumable handshake state. Each of
//! those outcomes maps onto one [`StepResult`] variant, and the generic
//! handshake loop drives the steps.

use crate::errors::ConnError;
use crate::handshake::{Handshake, StepResult};
use vstd::prelude::*;

verus! {

#[verifier::external_type_specification]
#[verifier::external_body]
/// A compiled TLS context, from native_tls. Built once per connector;
/// read-only during handshakes.
pub struct ExTlsConnector(native_tls::TlsConnector);

#[verifier::external_type_specification]
#[verifier::external_body]
#[verifier::reject_recursive_types(S)]
/// A TLS session wrapping a byte stream, from native_tls.
pub struct ExTlsStream<S>(native_tls::TlsStream<S>);

#[verifier::external_type_specification]
#[verifier::external_body]
#[verifier::reject_recursive_types(S)]
/// A handshake interrupted midway by would-block, from native_tls; calling
/// its `handshake` method resumes it without losing progress.
pub struct ExMidHandshake<S>(native_tls::MidHandshakeTlsStream<S>);

#[verifier::external_type_specification]
#[verifier::external_body]
/// The TLS engine's own error, from native_tls.
pub struct ExTlsError(native_tls::Error);

/// Relies on native_tls::TlsConnector::builder and TlsConnectorBuilder::build:
/// the context is compiled with the two given "danger accept invalid" flags;
/// whether it can be built depends on the platform trust store, so nothing is
/// promised of the outcome.
#[verifier::external_body]
fn build_tls_context(accept_invalid_hostnames: bool, accept_invalid_certs: bool) -> (r: Result<
    native_tls::TlsConnector,
    native_tls::Error,
>) {
    native_tls::TlsConnector::builder()
        .danger_accept_invalid_hostnames(accept_invalid_hostnames)
        .danger_accept_invalid_certs(accept_invalid_certs)
        .build()
}

/// Relies on native_tls::TlsConnector::builder and TlsConnectorBuilder::build,
/// with both "danger accept invalid" flags set: the maximally permissive
/// default policy. Defaults cannot legitimately fail to compile, so if the
/// platform trust store is unusable this aborts the process rather than
/// return.
#[verifier::external_body]
fn default_tls_context() -> (r: native_tls::TlsConnector) {
    native_tls::TlsConnector::builder()
        .danger_accept_invalid_hostnames(true)
        .danger_accept_invalid_certs(true)
        .build()
        .expect("new default connector failure")
}

/// A compiled TLS context together with the record of the two
/// "accept invalid" flags it was compiled with. The record is written
/// nowhere but here, beside the one call that compiles the context, so a
/// context's view always tells which policy its engine enforces.
pub struct TlsContext {
    inner: native_tls::TlsConnector,
    flags: Ghost<(bool, bool)>,
}

impl View for TlsContext {
    type V = (bool, bool);

    /// The pair (accept invalid hostnames, accept invalid certificates)
    /// this context was compiled with.
    closed spec fn view(&self) -> (bool, bool) {
        self.flags@
    }
}

impl TlsContext {
    /// Compile a context that accepts invalid hostnames and invalid or
    /// expired certificates exactly as the two flags say. Fails only when
    /// the platform security context cannot be constructed, and then with
    /// the configuration kind.
    pub fn compile(accept_invalid_hostnames: bool, accept_invalid_certs: bool) -> (r: Result<
        TlsContext,
        ConnError,
    >)
        ensures
            r matches Ok(c) ==> c@ == (accept_invalid_hostnames, accept_invalid_certs),
            r matches Err(e) ==> e == ConnError::TlsConfig,
    {
        match build_tls_context(accept_invalid_hostnames, accept_invalid_certs) {
            Ok(t) => Ok(
                TlsContext { inner: t, flags: Ghost((accept_invalid_hostnames, accept_invalid_certs)) },
            ),
            Err(_) => Err(ConnError::TlsConfig),
        }
    }

    /// The maximally permissive context: both "accept invalid" flags set.
    /// Aborts the process if even this cannot be compiled.
    pub fn permissive() -> (r: TlsContext)
        ensures
            r@ == (true, true),
    {
        TlsContext { inner: default_tls_context(), flags: Ghost((true, true)) }
    }
}

/// The state of a native TLS handshake: not yet started, or interrupted
/// midway with its partial progress retained.
pub enum TlsHandshake<'a> {
    /// The handshake has not begun: the context, the domain name used for
    /// hostname verification, and the connected stream to secure.
    Start(&'a TlsContext, &'a str, socket2::Socket),
    /// The handshake was interrupted by would-block and holds its partial
    /// state.
    Mid(native_tls::MidHandshakeTlsStream<socket2::Socket>),
}

/// Relies on native_tls::TlsConnector::connect: it returns a secured
/// stream, a terminal failure, or a resumable would-block state; a terminal
/// failure is surfaced as the handshake error kind.
#[verifier::external_body]
fn start_native<'a>(
    ctx: &'a TlsContext,
    domain: &'a str,
    sock: socket2::Socket,
) -> (r: StepResult<TlsHandshake<'a>, native_tls::TlsStream<socket2::Socket>>)
    ensures
        r matches StepResult::Failed(e) ==> e == ConnError::TlsHandshake,
{
    match ctx.inner.connect(domain, sock) {
        Ok(t) => StepResult::Done(t),
        Err(native_tls::HandshakeError::WouldBlock(mid)) => StepResult::Incomplete(
            TlsHandshake::Mid(mid),
        ),
        Err(native_tls::HandshakeError::Failure(_)) => StepResult::Failed(
            ConnError::TlsHandshake,
        ),
    }
}

/// Relies on native_tls::MidHandshakeTlsStream::handshake: it resumes the
/// interrupted handshake from its retained state, returning a secured
/// stream, a terminal failure, or again a resumable would-block state.
#[verifier::external_body]
fn resume_native<'a>(
    mid: native_tls::MidHandshakeTlsStream<socket2::Socket>,
) -> (r: StepResult<TlsHandshake<'a>, native_tls::TlsStream<socket2::Socket>>)
    ensures
        r matches StepResult::Failed(e) ==> e == ConnError::TlsHandshake,
{
    match mid.handshake() {
        Ok(t) => StepResult::Done(t),
        Err(native_tls::HandshakeError::WouldBlock(m)) => StepResult::Incomplete(
            TlsHandshake::Mid(m),
        ),
        Err(native_tls::HandshakeError::Failure(_)) => StepResult::Failed(
            ConnError::TlsHandshake,
        ),
    }
}

impl<'a> Handshake for TlsHandshake<'a> {
    type Stream = native_tls::TlsStream<socket2::Socket>;

    /// A real network peer decides each step's outcome, so the outcomes are
    /// not predetermined: there is no script.
    open spec fn plan(&self) -> Option<(nat, native_tls::TlsStream<socket2::Socket>)> {
        None
    }

    fn step(self) -> (r: StepResult<Self, native_tls::TlsStream<socket2::Socket>>) {
        match self {
            TlsHandshake::Start(ctx, domain, sock) => start_native(ctx, domain, sock),
            TlsHandshake::Mid(mid) => resume_native(mid),
        }
    }
}

} // verus!
