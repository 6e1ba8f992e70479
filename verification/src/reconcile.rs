//! Result Reconciler: the continuation bodies.
//!
//! A continuation is invoked by the host after the triggering remote call
//! resolves.  It may run only on the orchestrator's own identity; any other
//! caller is rejected before the continuation body is reached, whatever the
//! outcome holds.  A failure outcome is terminal: it is recorded as exactly
//! one diagnostic line and the chain ends with no result — there is at most
//! one remote attempt per operation and no automatic retry.

use vstd::prelude::*;
use crate::config::Contract;
use crate::diag::{failure_diag, log_failure, logged_one};
use crate::error::Error;
use crate::types::{DepositRecord, Outcome, PoolInfo};

verus! {

/// Whether a continuation invocation is authorized: only the orchestrator's
/// own identity may invoke its continuation operations.
pub open spec fn continuation_authorized(caller: Seq<char>, current_account: Seq<char>) -> bool {
    caller == current_account
}

/// Inspects a resolved outcome: a success payload is returned as is; a
/// failure is recorded as exactly one diagnostic line and yields nothing.
pub fn reconcile<T>(outcome: Outcome<T>, log: &mut Vec<String>) -> (r: Option<T>)
    ensures
        match outcome {
            Outcome::Success(v) => r == Some(v) && final(log)@ == old(log)@,
            Outcome::Failure => r is None && logged_one(old(log)@, final(log)@, failure_diag()),
        },
{
    match outcome {
        Outcome::Success(v) => Some(v),
        Outcome::Failure => {
            log_failure(log);
            None
        },
    }
}

impl Contract {
    /// Continuation of the value-relay and exchange entry points: observes
    /// the outcome, keeps no payload.
    pub fn external_call_callback(
        &self,
        caller: &String,
        current_account: &String,
        outcome: Outcome<String>,
        log: &mut Vec<String>,
    ) -> (r: Result<(), Error>)
        ensures
            !continuation_authorized(caller@, current_account@) ==> r == Err::<(), Error>(
                Error::UnauthorizedContinuation,
            ) && final(log)@ == old(log)@,
            continuation_authorized(caller@, current_account@) ==> r == Ok::<(), Error>(())
                && match outcome {
                Outcome::Success(_) => final(log)@ == old(log)@,
                Outcome::Failure => logged_one(old(log)@, final(log)@, failure_diag()),
            },
    {
        if !(*caller == *current_account) {
            return Err(Error::UnauthorizedContinuation);
        }
        reconcile(outcome, log);
        Ok(())
    }

    /// Continuation of `get_amm_pools`: returns the decoded pool records, or
    /// nothing when the remote call failed.
    pub fn external_get_pools_callback(
        &self,
        caller: &String,
        current_account: &String,
        outcome: Outcome<Vec<PoolInfo>>,
        log: &mut Vec<String>,
    ) -> (r: Result<Option<Vec<PoolInfo>>, Error>)
        ensures
            !continuation_authorized(caller@, current_account@) ==> r == Err::<
                Option<Vec<PoolInfo>>,
                Error,
            >(Error::UnauthorizedContinuation) && final(log)@ == old(log)@,
            continuation_authorized(caller@, current_account@) ==> match outcome {
                Outcome::Success(pools) => r == Ok::<Option<Vec<PoolInfo>>, Error>(Some(pools))
                    && final(log)@ == old(log)@,
                Outcome::Failure => r == Ok::<Option<Vec<PoolInfo>>, Error>(None) && logged_one(
                    old(log)@,
                    final(log)@,
                    failure_diag(),
                ),
            },
    {
        if !(*caller == *current_account) {
            return Err(Error::UnauthorizedContinuation);
        }
        Ok(reconcile(outcome, log))
    }

    /// Continuation of `get_contract_deposits`: returns the decoded deposit
    /// records, or nothing when the remote call failed.
    pub fn external_get_deposits_callback(
        &self,
        caller: &String,
        current_account: &String,
        outcome: Outcome<Vec<DepositRecord>>,
        log: &mut Vec<String>,
    ) -> (r: Result<Option<Vec<DepositRecord>>, Error>)
        ensures
            !continuation_authorized(caller@, current_account@) ==> r == Err::<
                Option<Vec<DepositRecord>>,
                Error,
            >(Error::UnauthorizedContinuation) && final(log)@ == old(log)@,
            continuation_authorized(caller@, current_account@) ==> match outcome {
                Outcome::Success(deposits) => r == Ok::<Option<Vec<DepositRecord>>, Error>(
                    Some(deposits),
                ) && final(log)@ == old(log)@,
                Outcome::Failure => r == Ok::<Option<Vec<DepositRecord>>, Error>(None)
                    && logged_one(old(log)@, final(log)@, failure_diag()),
            },
    {
        if !(*caller == *current_account) {
            return Err(Error::UnauthorizedContinuation);
        }
        Ok(reconcile(outcome, log))
    }
}

} // verus!
