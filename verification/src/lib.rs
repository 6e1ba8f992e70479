//! Orchestration core for budgeted, host-mediated asynchronous remote calls.
//!
//! The library builds outbound remote-call requests, attaches a single
//! continuation to each, reconciles resolved outcomes, and routes inbound
//! transfer notifications.  It performs no I/O itself: a host adapter hands it
//! plain values (identities, amounts, payload strings) and carries out the
//! calls that the library describes.

mod calls;
mod config;
mod diag;
mod error;
mod instruction;
mod reconcile;
mod router;
mod types;

pub use calls::schedule_continuation;
pub use calls::{
    is_get_deposits_call, is_get_pools_call, is_send_tokens_call, is_swap_action, is_swap_call,
    reserved_budget,
};
pub use calls::{
    lemma_get_deposits_call_well_budgeted, lemma_get_pools_call_well_budgeted,
    lemma_send_tokens_call_well_budgeted, lemma_swap_call_well_budgeted,
};
pub use calls::{
    FT_TRANSFER_GAS, GET_DEPOSITS_CALLBACK_GAS, GET_DEPOSITS_GAS, GET_POOLS_CALLBACK_GAS,
    GET_POOLS_GAS, SEND_CALLBACK_GAS, SWAP_CALLBACK_GAS, SWAP_GAS,
};
pub use config::{Contract, PRICE, TGAS, YOCTO_NEAR};
pub use diag::{buyer_diag, failure_diag, logged_one, logged_two, sender_diag};
pub use error::Error;
pub use instruction::{
    decode_instruction, decode_spec, find_quote, is_ws, plain_chars, skip_ws, Instruction,
};
pub use reconcile::{continuation_authorized, reconcile};
pub use router::notification_accepted;
pub use types::{
    CallArgs, Continuation, DepositRecord, Operation, Outcome, PendingCall, PoolInfo, SwapAction,
};
