//! Connection establishment core: builds configured connectors, opens raw
//! TCP streams with the configured socket options, and upgrades them to TLS
//! through a resumable handshake loop.

pub mod connector;
pub mod errors;
pub mod handshake;
pub mod proxy;
pub mod socket;
pub mod tls;

use vstd::prelude::*;

verus! {

} // verus!
