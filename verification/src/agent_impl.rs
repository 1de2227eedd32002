//! The kinds of agent through which a canister is reached.

use vstd::prelude::*;

verus! {

/// The largest number of times that a call is tried again after a transport error.
pub const MAX_ERROR_RETRIES: usize = 3;

/// The kind of agent through which a canister is reached.
#[derive(Debug, Clone, Copy, PartialEq, Eq, Structural)]
pub enum AgentImplType {
    /// A replica, over the network
    Default,
    /// A state machine, for integration tests
    StateMachine,
}

} // verus!
