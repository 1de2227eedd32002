//! Initialization arguments for canisters

use vstd::prelude::*;

verus! {

/// Controller types for a canister
#[derive(Debug, Clone, Copy, PartialEq, Eq, Hash, Structural)]
pub enum ControllerType {
    /// May back the canister up
    Backup,
    /// May restore the canister
    Restore,
    /// Verifies captchas
    HCaptchaVerify,
    /// Verifies phone numbers
    PhoneVerify,
    /// Decides on gating
    Gating,
    /// Moderates
    Mod,
    /// Owns the canister
    Owner,
    /// Produces events
    EventProducer,
    /// Routes events
    EventRouter,
    /// Consumes the transaction log
    TxLogConsumer,
    /// Produces the transaction log
    TxLogProducer,
}

} // verus!
