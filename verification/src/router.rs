//! Inbound Message Router: handles unsolicited notifications from the
//! trusted token service claiming that a value transfer happened.
//!
//! A notification is never partially accepted: the sender must be the
//! configured trusted identity, the amount must reach the configured
//! minimum, and a non-empty payload must decode into a recognized
//! instruction — otherwise the whole notification is rejected with no
//! effect.  The returned amount tells the host how much of the transfer to
//! give back to the sender; every accepted notification consumes all of it.

use vstd::prelude::*;
use vstd::string::StringExecFns;
use crate::config::Contract;
use crate::diag::{buyer_diag, log_line, logged_one, logged_two, make_sender_diag, sender_diag};
use crate::diag::lemma_logged_one_twice;
use crate::error::Error;
use crate::instruction::{decode_instruction, decode_spec, Instruction};

verus! {

/// Whether a notification passes the identity and amount checks: the
/// transferring service is the trusted one and the amount reaches the
/// configured minimum.
pub open spec fn notification_accepted(cfg: Contract, token: Seq<char>, amount: u128) -> bool {
    token == cfg.ft_contract@ && amount >= cfg.price
}

/// Builds the beneficiary line for a decoded instruction.
fn make_buyer_diag(ins: &Instruction) -> (r: String)
    ensures
        r@ == buyer_diag(ins@),
{
    match ins {
        Instruction::Action { buyer_id: Some(b) } => {
            let mut line = String::from_str("Target buyer id: ");
            line.append(b.as_str());
            line
        },
        Instruction::Action { buyer_id: None } => String::from_str("Target buyer id: none"),
    }
}

impl Contract {
    /// Entry point: an external service reports that `sender_id`
    /// transferred `amount`, with an optional instruction payload in `msg`;
    /// `token_contract` is the identity the host reports as the transferring
    /// service.
    ///
    /// Returns, on acceptance, how much of the transfer to give back to the
    /// sender — always zero, "keep all".  An empty payload is a bare
    /// deposit; a non-empty payload must decode into a recognized
    /// instruction, whose optional beneficiary is recorded in the
    /// diagnostic stream.
    pub fn ft_on_transfer(
        &self,
        sender_id: String,
        amount: u128,
        msg: String,
        token_contract: &String,
        log: &mut Vec<String>,
    ) -> (r: Result<u128, Error>)
        ensures
            token_contract@ != self.ft_contract@ ==> r == Err::<u128, Error>(Error::UntrustedSender)
                && final(log)@ == old(log)@,
            token_contract@ == self.ft_contract@ && amount < self.price ==> r == Err::<u128, Error>(
                Error::AmountBelowMinimum,
            ) && final(log)@ == old(log)@,
            notification_accepted(*self, token_contract@, amount) && msg@.len() == 0 ==> r == Ok::<
                u128,
                Error,
            >(0) && logged_one(old(log)@, final(log)@, sender_diag(sender_id@)),
            notification_accepted(*self, token_contract@, amount) && msg@.len() > 0 ==> (match
                decode_spec(msg@) {
                None => r == Err::<u128, Error>(Error::MalformedInstruction) && logged_one(
                    old(log)@,
                    final(log)@,
                    sender_diag(sender_id@),
                ),
                Some(buyer) => r == Ok::<u128, Error>(0) && logged_two(
                    old(log)@,
                    final(log)@,
                    sender_diag(sender_id@),
                    buyer_diag(buyer),
                ),
            }),
    {
        if !(*token_contract == self.ft_contract) {
            return Err(Error::UntrustedSender);
        }
        if amount < self.price {
            return Err(Error::AmountBelowMinimum);
        }
        let line = make_sender_diag(&sender_id);
        log_line(log, line);
        let ghost mid = log@;
        if msg.as_str().is_empty() {
            return Ok(0);
        }
        match decode_instruction(msg.as_str()) {
            None => Err(Error::MalformedInstruction),
            Some(ins) => {
                let buyer_line = make_buyer_diag(&ins);
                log_line(log, buyer_line);
                proof {
                    lemma_logged_one_twice(
                        old(log)@,
                        mid,
                        log@,
                        sender_diag(sender_id@),
                        buyer_diag(ins@),
                    );
                }
                Ok(0)
            },
        }
    }
}

} // verus!
