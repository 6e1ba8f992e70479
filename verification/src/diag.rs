//! The diagnostic stream.
//!
//! The orchestrator's only observable side effect besides its return values
//! is an append-only stream of diagnostic lines; the host hands each
//! component the stream as a `Vec<String>`.  The spec functions here say
//! exactly which lines a call appends.

use vstd::prelude::*;
use vstd::string::StringExecFns;

verus! {

/// The line emitted when a remote call resolves as a failure.
pub open spec fn failure_diag() -> Seq<char> {
    "There was an error contacting external contract"@
}

/// The line recording an accepted notification's original sender.
pub open spec fn sender_diag(sender: Seq<char>) -> Seq<char> {
    "Sender id: "@ + sender
}

/// The line recording the beneficiary an instruction designated, or its
/// absence.
pub open spec fn buyer_diag(buyer: Option<Seq<char>>) -> Seq<char> {
    match buyer {
        Some(b) => "Target buyer id: "@ + b,
        None => "Target buyer id: none"@,
    }
}

/// `post` is `pre` with exactly the one line `msg` appended.
pub open spec fn logged_one(pre: Seq<String>, post: Seq<String>, msg: Seq<char>) -> bool {
    &&& post.len() == pre.len() + 1
    &&& post.subrange(0, pre.len() as int) == pre
    &&& post.last()@ == msg
}

/// `post` is `pre` with exactly the two lines `first` and `second` appended,
/// in that order.
pub open spec fn logged_two(
    pre: Seq<String>,
    post: Seq<String>,
    first: Seq<char>,
    second: Seq<char>,
) -> bool {
    &&& post.len() == pre.len() + 2
    &&& post.subrange(0, pre.len() as int) == pre
    &&& post[pre.len() as int]@ == first
    &&& post.last()@ == second
}

/// Two single appends in sequence yield exactly two new lines.
pub proof fn lemma_logged_one_twice(
    pre: Seq<String>,
    mid: Seq<String>,
    post: Seq<String>,
    first: Seq<char>,
    second: Seq<char>,
)
    requires
        logged_one(pre, mid, first),
        logged_one(mid, post, second),
    ensures
        logged_two(pre, post, first, second),
{
    assert forall|i: int| 0 <= i < pre.len() implies post[i] == pre[i] by {
        assert(post.subrange(0, mid.len() as int)[i] == post[i]);
        assert(mid.subrange(0, pre.len() as int)[i] == mid[i]);
    }
    assert(post.subrange(0, pre.len() as int) =~= pre);
    assert(post.subrange(0, mid.len() as int)[pre.len() as int] == post[pre.len() as int]);
    assert(post[pre.len() as int] == mid.last());
}

/// Appends one line, with the given view, to the diagnostic stream.
pub(crate) fn log_line(log: &mut Vec<String>, line: String)
    ensures
        logged_one(old(log)@, final(log)@, line@),
{
    let ghost lv = line@;
    log.push(line);
    proof {
        assert(log@.subrange(0, old(log)@.len() as int) =~= old(log)@);
        assert(log@.last()@ == lv);
    }
}

/// Appends the failure line to the diagnostic stream.
pub(crate) fn log_failure(log: &mut Vec<String>)
    ensures
        logged_one(old(log)@, final(log)@, failure_diag()),
{
    let line = String::from_str("There was an error contacting external contract");
    log_line(log, line);
}

/// Builds the sender line for an accepted notification.
pub(crate) fn make_sender_diag(sender: &String) -> (r: String)
    ensures
        r@ == sender_diag(sender@),
{
    let mut line = String::from_str("Sender id: ");
    line.append(sender.as_str());
    line
}

} // verus!
