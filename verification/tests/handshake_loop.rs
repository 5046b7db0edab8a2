use conncore::errors::ConnError;
use conncore::handshake::{run_handshake, ScriptedHandshake};

#[test]
fn three_would_blocks_take_four_steps() {
    let transport = ScriptedHandshake { remaining: 3, taken: 0 };
    assert_eq!(run_handshake(transport), Ok(4));
}

#[test]
fn no_would_block_takes_one_step() {
    let transport = ScriptedHandshake { remaining: 0, taken: 0 };
    assert_eq!(run_handshake(transport), Ok(1));
}

#[test]
fn many_would_blocks_are_all_stepped_through() {
    let transport = ScriptedHandshake { remaining: 1_000, taken: 0 };
    assert_eq!(run_handshake(transport), Ok(1_001));
}

#[test]
fn a_failing_step_surfaces_the_handshake_error() {
    // A transport whose step count cannot advance reports a terminal
    // failure, which the loop passes through unchanged.
    let transport = ScriptedHandshake { remaining: 0, taken: u64::MAX };
    assert_eq!(run_handshake(transport), Err(ConnError::TlsHandshake));
}

#[test]
fn error_kinds_have_descriptions() {
    assert_eq!(ConnError::AlreadySecured.describe(), "it's already tls");
    assert_eq!(ConnError::Connect.describe(), "connect failed or timed out");
    assert!(ConnError::TlsConfig != ConnError::TlsHandshake);
}
