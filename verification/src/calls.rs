//! Call Builder and Continuation Scheduler: construct outbound remote-call
//! requests and attach the single continuation each one may carry.
//!
//! Every rejection here is synchronous and happens before any remote call is
//! issued: an entry point that returns an error has requested nothing from
//! the host.

use vstd::prelude::*;
use crate::config::{Contract, TGAS, YOCTO_NEAR};
use crate::error::Error;
use crate::types::{CallArgs, Continuation, Operation, PendingCall, SwapAction};

verus! {

/// Budget for the token-transfer call issued by `send_tokens`.
pub const FT_TRANSFER_GAS: u64 = 30 * TGAS;

/// Budget reserved for `send_tokens`' continuation.
pub const SEND_CALLBACK_GAS: u64 = 30 * TGAS;

/// Budget for the exchange call issued by `swap_tokens`.
pub const SWAP_GAS: u64 = 150 * TGAS;

/// Budget reserved for `swap_tokens`' continuation.
pub const SWAP_CALLBACK_GAS: u64 = 100 * TGAS;

/// Budget for the pool query issued by `get_amm_pools`.
pub const GET_POOLS_GAS: u64 = 30 * TGAS;

/// Budget reserved for `get_amm_pools`' continuation.
pub const GET_POOLS_CALLBACK_GAS: u64 = 30 * TGAS;

/// Budget for the deposit query issued by `get_contract_deposits`.
pub const GET_DEPOSITS_GAS: u64 = 30 * TGAS;

/// Budget reserved for `get_contract_deposits`' continuation.
pub const GET_DEPOSITS_CALLBACK_GAS: u64 = 30 * TGAS;

/// Attaches the single continuation a pending call may carry.
///
/// The continuation must be funded: a zero budget is an explicit
/// configuration error, because an under-funded continuation never runs and
/// the call outcome would be lost.  The call's own budget plus the
/// continuation's must stay within the total budget the host granted the
/// whole chain.
pub fn schedule_continuation(
    call: PendingCall,
    operation: Operation,
    continuation_budget: u64,
    total_budget: u64,
) -> (r: Result<PendingCall, Error>)
    requires
        call.continuation is None,
    ensures
        continuation_budget == 0 ==> r == Err::<PendingCall, Error>(
            Error::ContinuationUnderProvisioned,
        ),
        continuation_budget > 0 && call.budget + continuation_budget > total_budget ==> r == Err::<
            PendingCall,
            Error,
        >(Error::BudgetExceeded),
        continuation_budget > 0 && call.budget + continuation_budget <= total_budget ==> (
        r matches Ok(pc) && pc == (PendingCall {
            continuation: Some(Continuation { operation, budget: continuation_budget }),
            ..call
        })),
{
    if continuation_budget == 0 {
        return Err(Error::ContinuationUnderProvisioned);
    }
    if continuation_budget > total_budget || call.budget > total_budget - continuation_budget {
        return Err(Error::BudgetExceeded);
    }
    Ok(
        PendingCall {
            continuation: Some(Continuation { operation, budget: continuation_budget }),
            ..call
        },
    )
}

/// What `send_tokens` hands the host on success: a transfer of `amount` to
/// `receiver` on the token service, carrying the sentinel value, with the
/// observing continuation attached.
pub open spec fn is_send_tokens_call(
    pc: PendingCall,
    cfg: Contract,
    receiver: Seq<char>,
    amount: u128,
) -> bool {
    &&& pc.target@ == cfg.ft_contract@
    &&& pc.operation == Operation::FtTransfer
    &&& pc.args matches CallArgs::FtTransfer { receiver_id, amount: a, memo } && receiver_id@
        == receiver && a == amount && memo is None
    &&& pc.budget == FT_TRANSFER_GAS
    &&& pc.attached_value == YOCTO_NEAR
    &&& pc.continuation matches Some(c) && c.operation == Operation::ExternalCallCallback
        && c.budget == SEND_CALLBACK_GAS
}

/// The single exchange step `swap_tokens` builds.
pub open spec fn is_swap_action(
    a: SwapAction,
    pool_id: u64,
    token_in: Seq<char>,
    token_out: Seq<char>,
    amount_in: u128,
    min_amount_out: u128,
) -> bool {
    &&& a.pool_id == pool_id
    &&& a.token_in@ == token_in
    &&& a.amount_in == Some(amount_in)
    &&& a.token_out@ == token_out
    &&& a.min_amount_out == min_amount_out
}

/// What `swap_tokens` hands the host on success: a one-step exchange on the
/// market-making service, carrying the sentinel value, with the observing
/// continuation attached.
pub open spec fn is_swap_call(
    pc: PendingCall,
    cfg: Contract,
    pool_id: u64,
    token_in: Seq<char>,
    token_out: Seq<char>,
    amount_in: u128,
    min_amount_out: u128,
) -> bool {
    &&& pc.target@ == cfg.amm_contract@
    &&& pc.operation == Operation::Swap
    &&& pc.args matches CallArgs::Swap { actions } && actions@.len() == 1 && is_swap_action(
        actions@[0],
        pool_id,
        token_in,
        token_out,
        amount_in,
        min_amount_out,
    )
    &&& pc.budget == SWAP_GAS
    &&& pc.attached_value == YOCTO_NEAR
    &&& pc.continuation matches Some(c) && c.operation == Operation::ExternalCallCallback
        && c.budget == SWAP_CALLBACK_GAS
}

/// What `get_amm_pools` hands the host on success: a read of one page of
/// pool records, with the decoding continuation attached.
pub open spec fn is_get_pools_call(
    pc: PendingCall,
    cfg: Contract,
    from_index: u64,
    limit: u64,
) -> bool {
    &&& pc.target@ == cfg.amm_contract@
    &&& pc.operation == Operation::GetPools
    &&& pc.args matches CallArgs::GetPools { from_index: f, limit: l } && f == from_index && l
        == limit
    &&& pc.budget == GET_POOLS_GAS
    &&& pc.attached_value == 0
    &&& pc.continuation matches Some(c) && c.operation == Operation::ExternalGetPoolsCallback
        && c.budget == GET_POOLS_CALLBACK_GAS
}

/// What `get_contract_deposits` hands the host on success: a read of this
/// orchestrator's deposits, with the decoding continuation attached.
pub open spec fn is_get_deposits_call(
    pc: PendingCall,
    cfg: Contract,
    current_account: Seq<char>,
) -> bool {
    &&& pc.target@ == cfg.amm_contract@
    &&& pc.operation == Operation::GetDeposits
    &&& pc.args matches CallArgs::GetDeposits { account_id } && account_id@ == current_account
    &&& pc.budget == GET_DEPOSITS_GAS
    &&& pc.attached_value == 0
    &&& pc.continuation matches Some(c) && c.operation == Operation::ExternalGetDepositsCallback
        && c.budget == GET_DEPOSITS_CALLBACK_GAS
}

/// The two-part ledger of one pending call: the budget granted to the
/// remote call itself plus the budget reserved for its continuation.
pub open spec fn reserved_budget(pc: PendingCall) -> int {
    pc.budget + (match pc.continuation {
        Some(c) => c.budget as int,
        None => 0,
    })
}

/// Every transfer call `send_tokens` hands the host keeps its two-part
/// ledger within the granted total and carries a funded continuation.
pub proof fn lemma_send_tokens_call_well_budgeted(
    pc: PendingCall,
    cfg: Contract,
    receiver: Seq<char>,
    amount: u128,
    total_budget: u64,
)
    requires
        is_send_tokens_call(pc, cfg, receiver, amount),
        FT_TRANSFER_GAS + SEND_CALLBACK_GAS <= total_budget,
    ensures
        reserved_budget(pc) <= total_budget,
        pc.continuation matches Some(c) && c.budget > 0,
{
}

/// Every exchange call `swap_tokens` hands the host keeps its two-part
/// ledger within the granted total and carries a funded continuation.
pub proof fn lemma_swap_call_well_budgeted(
    pc: PendingCall,
    cfg: Contract,
    pool_id: u64,
    token_in: Seq<char>,
    token_out: Seq<char>,
    amount_in: u128,
    min_amount_out: u128,
    total_budget: u64,
)
    requires
        is_swap_call(pc, cfg, pool_id, token_in, token_out, amount_in, min_amount_out),
        SWAP_GAS + SWAP_CALLBACK_GAS <= total_budget,
    ensures
        reserved_budget(pc) <= total_budget,
        pc.continuation matches Some(c) && c.budget > 0,
{
}

/// Every pool query `get_amm_pools` hands the host keeps its two-part
/// ledger within the granted total and carries a funded continuation.
pub proof fn lemma_get_pools_call_well_budgeted(
    pc: PendingCall,
    cfg: Contract,
    from_index: u64,
    limit: u64,
    total_budget: u64,
)
    requires
        is_get_pools_call(pc, cfg, from_index, limit),
        GET_POOLS_GAS + GET_POOLS_CALLBACK_GAS <= total_budget,
    ensures
        reserved_budget(pc) <= total_budget,
        pc.continuation matches Some(c) && c.budget > 0,
{
}

/// Every deposit query `get_contract_deposits` hands the host keeps its
/// two-part ledger within the granted total and carries a funded
/// continuation.
pub proof fn lemma_get_deposits_call_well_budgeted(
    pc: PendingCall,
    cfg: Contract,
    current_account: Seq<char>,
    total_budget: u64,
)
    requires
        is_get_deposits_call(pc, cfg, current_account),
        GET_DEPOSITS_GAS + GET_DEPOSITS_CALLBACK_GAS <= total_budget,
    ensures
        reserved_budget(pc) <= total_budget,
        pc.continuation matches Some(c) && c.budget > 0,
{
}

impl Contract {
    /// Constructs an outbound remote-call request with no continuation yet.
    ///
    /// Rejects, before anything is requested from the host, a target that is
    /// not a configured service identity, a call with no budget, and a budget
    /// beyond the total the host granted the chain.
    pub fn build_call(
        &self,
        target: String,
        operation: Operation,
        args: CallArgs,
        budget: u64,
        attached_value: u128,
        total_budget: u64,
    ) -> (r: Result<PendingCall, Error>)
        ensures
            !self.recognizes(target@) ==> r == Err::<PendingCall, Error>(
                Error::UnrecognizedTarget,
            ),
            self.recognizes(target@) && budget == 0 ==> r == Err::<PendingCall, Error>(
                Error::ZeroCallBudget,
            ),
            self.recognizes(target@) && budget > total_budget ==> r == Err::<PendingCall, Error>(
                Error::BudgetExceeded,
            ),
            self.recognizes(target@) && 0 < budget <= total_budget ==> r == Ok::<
                PendingCall,
                Error,
            >(
                PendingCall {
                    target,
                    operation,
                    args,
                    budget,
                    attached_value,
                    continuation: None,
                },
            ),
    {
        if !(target == self.ft_contract) && !(target == self.amm_contract) {
            return Err(Error::UnrecognizedTarget);
        }
        if budget == 0 {
            return Err(Error::ZeroCallBudget);
        }
        if budget > total_budget {
            return Err(Error::BudgetExceeded);
        }
        Ok(PendingCall { target, operation, args, budget, attached_value, continuation: None })
    }

    /// Entry point: relay `amount` tokens to `receiver_id` through the
    /// fungible-token service.
    ///
    /// Demands that exactly one indivisible unit of value is attached, as an
    /// authorization signal; any other attached value is rejected before a
    /// call is built, so a rejected invocation issues no remote call.
    pub fn send_tokens(
        &self,
        receiver_id: String,
        amount: u128,
        attached_value: u128,
        total_budget: u64,
    ) -> (r: Result<PendingCall, Error>)
        ensures
            attached_value != YOCTO_NEAR ==> r == Err::<PendingCall, Error>(
                Error::WrongAttachedValue,
            ),
            attached_value == YOCTO_NEAR && FT_TRANSFER_GAS + SEND_CALLBACK_GAS > total_budget
                ==> r == Err::<PendingCall, Error>(Error::BudgetExceeded),
            attached_value == YOCTO_NEAR && FT_TRANSFER_GAS + SEND_CALLBACK_GAS <= total_budget
                ==> (r matches Ok(pc) && is_send_tokens_call(pc, *self, receiver_id@, amount)),
    {
        if attached_value != YOCTO_NEAR {
            return Err(Error::WrongAttachedValue);
        }
        let target = self.ft_contract.clone();
        let args = CallArgs::FtTransfer { receiver_id, amount, memo: None };
        let call = match self.build_call(
            target,
            Operation::FtTransfer,
            args,
            FT_TRANSFER_GAS,
            YOCTO_NEAR,
            total_budget,
        ) {
            Ok(c) => c,
            Err(e) => {
                return Err(e);
            },
        };
        schedule_continuation(call, Operation::ExternalCallCallback, SEND_CALLBACK_GAS, total_budget)
    }

    /// Entry point: exchange `amount_in` of `token_in` for at least
    /// `min_amount_out` of `token_out` on the market-making service, through
    /// the given pool.
    ///
    /// Demands the same exact attached value as `send_tokens`.
    pub fn swap_tokens(
        &self,
        pool_id: u64,
        token_in: String,
        token_out: String,
        amount_in: u128,
        min_amount_out: u128,
        attached_value: u128,
        total_budget: u64,
    ) -> (r: Result<PendingCall, Error>)
        ensures
            attached_value != YOCTO_NEAR ==> r == Err::<PendingCall, Error>(
                Error::WrongAttachedValue,
            ),
            attached_value == YOCTO_NEAR && SWAP_GAS + SWAP_CALLBACK_GAS > total_budget ==> r
                == Err::<PendingCall, Error>(Error::BudgetExceeded),
            attached_value == YOCTO_NEAR && SWAP_GAS + SWAP_CALLBACK_GAS <= total_budget ==> (
            r matches Ok(pc) && is_swap_call(
                pc,
                *self,
                pool_id,
                token_in@,
                token_out@,
                amount_in,
                min_amount_out,
            )),
    {
        if attached_value != YOCTO_NEAR {
            return Err(Error::WrongAttachedValue);
        }
        let action = SwapAction {
            pool_id,
            token_in,
            amount_in: Some(amount_in),
            token_out,
            min_amount_out,
        };
        let mut actions: Vec<SwapAction> = Vec::new();
        actions.push(action);
        let target = self.amm_contract.clone();
        let call = match self.build_call(
            target,
            Operation::Swap,
            CallArgs::Swap { actions },
            SWAP_GAS,
            YOCTO_NEAR,
            total_budget,
        ) {
            Ok(c) => c,
            Err(e) => {
                return Err(e);
            },
        };
        schedule_continuation(call, Operation::ExternalCallCallback, SWAP_CALLBACK_GAS, total_budget)
    }

    /// Entry point: read one page of pool records from the market-making
    /// service.  No value precondition; the continuation decodes the page.
    pub fn get_amm_pools(&self, from_index: u64, limit: u64, total_budget: u64) -> (r: Result<
        PendingCall,
        Error,
    >)
        ensures
            GET_POOLS_GAS + GET_POOLS_CALLBACK_GAS > total_budget ==> r == Err::<
                PendingCall,
                Error,
            >(Error::BudgetExceeded),
            GET_POOLS_GAS + GET_POOLS_CALLBACK_GAS <= total_budget ==> (r matches Ok(pc)
                && is_get_pools_call(pc, *self, from_index, limit)),
    {
        let target = self.amm_contract.clone();
        let call = match self.build_call(
            target,
            Operation::GetPools,
            CallArgs::GetPools { from_index, limit },
            GET_POOLS_GAS,
            0,
            total_budget,
        ) {
            Ok(c) => c,
            Err(e) => {
                return Err(e);
            },
        };
        schedule_continuation(
            call,
            Operation::ExternalGetPoolsCallback,
            GET_POOLS_CALLBACK_GAS,
            total_budget,
        )
    }

    /// Entry point: read this orchestrator's deposits on the market-making
    /// service.  `current_account` is the orchestrator's own identity, as
    /// the host reports it; the continuation decodes the records.
    pub fn get_contract_deposits(&self, current_account: String, total_budget: u64) -> (r: Result<
        PendingCall,
        Error,
    >)
        ensures
            GET_DEPOSITS_GAS + GET_DEPOSITS_CALLBACK_GAS > total_budget ==> r == Err::<
                PendingCall,
                Error,
            >(Error::BudgetExceeded),
            GET_DEPOSITS_GAS + GET_DEPOSITS_CALLBACK_GAS <= total_budget ==> (r matches Ok(pc)
                && is_get_deposits_call(pc, *self, current_account@)),
    {
        let target = self.amm_contract.clone();
        let call = match self.build_call(
            target,
            Operation::GetDeposits,
            CallArgs::GetDeposits { account_id: current_account },
            GET_DEPOSITS_GAS,
            0,
            total_budget,
        ) {
            Ok(c) => c,
            Err(e) => {
                return Err(e);
            },
        };
        schedule_continuation(
            call,
            Operation::ExternalGetDepositsCallback,
            GET_DEPOSITS_CALLBACK_GAS,
            total_budget,
        )
    }
}

} // verus!
