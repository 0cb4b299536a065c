//! What the service answers to the handshake.

use vstd::prelude::*;

verus! {

/// The integration handle of a run: the id under which the service knows
/// this invocation, and the public key that wraps the run's symmetric key.
#[derive(Debug, Clone)]
pub struct CatchConnectCLIResponse {
    pub public_key: String,
    pub integration_id: String,
}

} // verus!
