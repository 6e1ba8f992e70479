//! The data carried by one in-flight remote call.
//!
//! A [`PendingCall`] is transient, per-operation state: it describes a single
//! requested remote call — target, operation, arguments, budget, attached
//! value and at most one continuation — and is handed to the host transport,
//! which alone executes it.

use vstd::prelude::*;

verus! {

/// The operations this orchestrator requests from external services, and the
/// continuation operations it designates on itself.
#[derive(Clone, Copy, Debug, PartialEq, Eq, Structural)]
pub enum Operation {
    /// Transfer tokens on the fungible-token service.
    FtTransfer,
    /// Execute an exchange on the market-making service.
    Swap,
    /// Read a page of liquidity pools from the market-making service.
    GetPools,
    /// Read this orchestrator's deposits on the market-making service.
    GetDeposits,
    /// Continuation that only observes success or failure.
    ExternalCallCallback,
    /// Continuation that decodes a list of pool records.
    ExternalGetPoolsCallback,
    /// Continuation that decodes a list of deposit records.
    ExternalGetDepositsCallback,
}

/// One step of an exchange on the market-making service.
pub struct SwapAction {
    /// Pool which should be used for swapping.
    pub pool_id: u64,
    /// Token to swap from.
    pub token_in: String,
    /// Amount to exchange; absent means "take the previous step's output",
    /// which is never used here because every exchange has a single step.
    pub amount_in: Option<u128>,
    /// Token to swap into.
    pub token_out: String,
    /// Required minimum amount of `token_out`.
    pub min_amount_out: u128,
}

/// One liquidity-pool record, as decoded from the market-making service.
pub struct PoolInfo {
    /// Pool kind.
    pub pool_kind: String,
    /// List of tokens in the pool.
    pub token_account_ids: Vec<String>,
    /// Amount held of each token, positionally matching `token_account_ids`.
    pub amounts: Vec<u128>,
    /// Fee charged for swap.
    pub total_fee: u32,
    /// Total number of shares.
    pub shares_total_supply: u128,
    /// Amplification factor of the pool.
    pub amp: u64,
}

/// One deposit record, as decoded from the market-making service.
pub struct DepositRecord {
    /// The token the deposit is held in.
    pub account_id: String,
    /// The deposited amount.
    pub amount: u128,
}

/// The argument payload of one remote call.
pub enum CallArgs {
    /// Arguments of a token transfer.
    FtTransfer { receiver_id: String, amount: u128, memo: Option<String> },
    /// Arguments of an exchange.
    Swap { actions: Vec<SwapAction> },
    /// Arguments of a pool query.
    GetPools { from_index: u64, limit: u64 },
    /// Arguments of a deposit query.
    GetDeposits { account_id: String },
}

/// The single continuation attached to a pending call: an operation on the
/// orchestrator itself and the budget reserved for it.
pub struct Continuation {
    /// The continuation operation, invoked on the orchestrator's own identity
    /// after the triggering call resolves.
    pub operation: Operation,
    /// Budget reserved for the continuation, separate from the triggering
    /// call's own budget.
    pub budget: u64,
}

/// One requested remote call, not yet executed.  Consumed by the host
/// transport; never persisted.
pub struct PendingCall {
    /// Identity of the external service the call is addressed to.
    pub target: String,
    /// The operation requested of the target.
    pub operation: Operation,
    /// The operation's argument payload.
    pub args: CallArgs,
    /// Budget granted to the remote call itself.
    pub budget: u64,
    /// Value transferred along with the call.
    pub attached_value: u128,
    /// The continuation, if one has been scheduled.
    pub continuation: Option<Continuation>,
}

/// The resolved result of a remote call: a success payload, or a failure
/// marker carrying no detail — the orchestrator never inspects failure
/// content, only failure presence.
pub enum Outcome<T> {
    /// The call resolved with a payload.
    Success(T),
    /// The call failed; no payload detail is guaranteed.
    Failure,
}

} // verus!
