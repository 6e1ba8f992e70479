//! Rejection reasons for the orchestration core.
//!
//! Every rejection happens synchronously, before any remote call is issued:
//! a caller that receives one of these values knows that the operation had no
//! effect.

use vstd::prelude::*;

verus! {

/// Why an operation was rejected before any remote call was issued.
#[derive(Clone, Copy, Debug, PartialEq, Eq, Structural)]
pub enum Error {
    /// A value-attaching entry point was invoked with an attached value other
    /// than the exact sentinel amount it demands.
    WrongAttachedValue,
    /// The requested call target is not one of the configured service
    /// identities.
    UnrecognizedTarget,
    /// The call budget is zero: a call with no budget can never run.
    ZeroCallBudget,
    /// The combined budget of the call and its continuation exceeds the total
    /// budget the host granted for the whole chain.
    BudgetExceeded,
    /// The continuation was granted a zero budget; an under-funded
    /// continuation never runs and the call outcome would be lost.
    ContinuationUnderProvisioned,
    /// A continuation operation was invoked by an identity other than the
    /// orchestrator's own.
    UnauthorizedContinuation,
    /// An inbound notification came from an identity other than the
    /// configured trusted service.
    UntrustedSender,
    /// An inbound notification transferred less than the configured minimum.
    AmountBelowMinimum,
    /// An inbound notification carried a non-empty instruction payload that
    /// matches no recognized instruction shape.
    MalformedInstruction,
}

} // verus!
