//! The resumable handshake state machine.
//!
//! A handshake over a non-blocking transport may not finish in one step: a
//! step can report "would block, call again", handing back the partial
//! handshake state. The loop below re-invokes the step with that state
//! until the transport reports success or a terminal failure. The
//! transport, not this component, decides how many steps are needed: the
//! loop tolerates up to `u64::MAX` resumptions, more than any transport
//! can ask for in practice, and never discards or re-derives the partial
//! state between them.

use crate::errors::ConnError;
use vstd::prelude::*;

verus! {

/// The outcome of one handshake step: finished with a secured stream,
/// interrupted with resumable partial state, or failed terminally.
pub enum StepResult<H, S> {
    /// The handshake completed and yielded the secured stream.
    Done(S),
    /// The step would block; the partial handshake state is retained and the
    /// step must be re-invoked with it.
    Incomplete(H),
    /// The handshake failed terminally; it must not be retried.
    Failed(ConnError),
}

/// A capability that performs one step of a resumable handshake.
///
/// `plan` is the transport's ghost script: `Some((n, s))` means the next
/// `n` steps report would-block and the step after them completes with
/// stream `s`. A transport whose outcomes are not predetermined (a real
/// network peer) has no script and returns `None`, which promises nothing
/// of its steps.
pub trait Handshake: Sized {
    /// The secured stream a completed handshake yields.
    type Stream;

    /// The scripted outcomes of this transport, if they are predetermined.
    spec fn plan(&self) -> Option<(nat, Self::Stream)>;

    /// Perform one handshake step, consuming the state; on would-block the
    /// returned state carries the partial handshake forward.
    fn step(self) -> (r: StepResult<Self, Self::Stream>)
        ensures
            (match self.plan() {
                Some((n, s)) => {
                    if n == 0 {
                        r matches StepResult::Done(out) && out == s
                    } else {
                        r matches StepResult::Incomplete(h)
                            && h.plan() == Some((((n - 1) as nat, s)))
                    }
                },
                None => true,
            }),
    ;
}

/// Drive a handshake to completion: step until the transport reports success
/// or a terminal failure, carrying the partial state from each would-block
/// step into the next. The transport, not this loop, decides how many steps
/// are needed: the loop resumes up to `u64::MAX` times — more than any real
/// handshake can use — before it reports the handshake as failed. A scripted
/// transport completes with exactly the stream its script promises, after
/// all its would-block steps.
#[verifier::loop_isolation(false)]
pub fn run_handshake<H: Handshake>(h: H) -> (r: Result<H::Stream, ConnError>)
    ensures
        h.plan() matches Some((n, s)) ==> n < u64::MAX ==> (r matches Ok(out) && out == s),
{
    let ghost plan0 = h.plan();
    let mut cur = h;
    let mut fuel: u64 = u64::MAX;
    loop
        invariant
            plan0 matches Some((n, s)) ==> n < u64::MAX ==> (cur.plan() matches Some((m, s2))
                && s2 == s && m <= fuel),
        decreases fuel,
    {
        match cur.step() {
            StepResult::Done(out) => {
                return Ok(out);
            },
            StepResult::Incomplete(next) => {
                if fuel == 0 {
                    return Err(ConnError::TlsHandshake);
                }
                fuel = fuel - 1;
                cur = next;
            },
            StepResult::Failed(e) => {
                return Err(e);
            },
        }
    }
}

/// A deterministic transport for exercising the handshake loop: it reports
/// would-block exactly `remaining` more times and then completes. Its
/// "stream" is the total number of steps performed, counted in `taken`, so
/// the value the loop returns is the loop's own step count.
pub struct ScriptedHandshake {
    /// How many more steps report would-block before the handshake completes.
    pub remaining: u64,
    /// How many steps have been performed so far.
    pub taken: u64,
}

impl Handshake for ScriptedHandshake {
    type Stream = u64;

    /// Scripted: `remaining` would-block steps, then completion; the
    /// completed "stream" is the total step count, which every step
    /// preserves. States whose step count would overflow have no script.
    open spec fn plan(&self) -> Option<(nat, u64)> {
        if self.taken + self.remaining + 1 <= u64::MAX {
            Some((self.remaining as nat, (self.taken + self.remaining + 1) as u64))
        } else {
            None
        }
    }

    fn step(self) -> (r: StepResult<Self, u64>) {
        if self.taken == u64::MAX {
            StepResult::Failed(ConnError::TlsHandshake)
        } else if self.remaining == 0 {
            StepResult::Done(self.taken + 1)
        } else {
            StepResult::Incomplete(
                ScriptedHandshake { remaining: self.remaining - 1, taken: self.taken + 1 },
            )
        }
    }
}

/// Law: a transport that reports would-block exactly `n` times before
/// succeeding is scripted to complete with stream value `n + 1`; by the
/// contract of `run_handshake`, the loop on such a transport therefore
/// returns `Ok(n + 1)` — it completes after exactly `n + 1` steps,
/// preserving the handshake state across the `n` would-block steps.
pub proof fn lemma_handshake_loop_step_count(h: ScriptedHandshake, n: u64)
    requires
        h.remaining == n,
        h.taken == 0,
        n < u64::MAX,
    ensures
        h.plan() == Some((n as nat, (n + 1) as u64)),
{
}

} // verus!
