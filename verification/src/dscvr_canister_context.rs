//! Common logic for managing global canister state and context.

use vstd::prelude::*;

verus! {

/// Enum used to describe the sub type of an update.
#[derive(Debug)]
pub enum UpdateContext<'a> {
    /// Update that runs on the primary and
    /// should be appended to the TxLog
    Primary,
    /// Update that is replayed on the Secondary and
    /// should not be appended to the TxLog and does
    /// not require response validation
    Secondary,
    /// Update that is replayed on the Secondary and
    /// should not be appended to the TxLog but does
    /// require response validation.
    SecondaryWithValidation(&'a [u8]),
}

impl<'a> UpdateContext<'a> {
    /// Whether the update is to be appended to the transaction log.
    pub fn is_primary(&self) -> (r: bool)
        ensures
            r == (*self is Primary),
    {
        match self {
            UpdateContext::Primary => true,
            _ => false,
        }
    }

    /// The response that the update is validated against, if it is validated.
    pub fn expected_response(&self) -> (r: Option<&'a [u8]>)
        ensures
            r == match *self {
                UpdateContext::SecondaryWithValidation(response) => Some(response),
                _ => None,
            },
    {
        match self {
            UpdateContext::SecondaryWithValidation(response) => Some(*response),
            _ => None,
        }
    }
}

} // verus!
