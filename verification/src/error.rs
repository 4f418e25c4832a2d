//! Errors that end a payment.
use vstd::prelude::*;

verus! {

/// Why a payment was stopped.
#[derive(Debug, PartialEq, Eq)]
pub enum Error {
    /// No packet was fulfilled for too long
    TimeoutError(String),
    /// The money could not be sent
    SendMoneyError(String),
}

} // verus!
