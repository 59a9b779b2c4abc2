//! What holds of every invocation's answer.
use vstd::prelude::*;

use crate::handler::{response_of, success_message_of, FAILURE_MESSAGE, MESSAGE_PREFIX};

verus! {

/// `part` occurs in `text` as a contiguous run of characters.
pub open spec fn contains(text: Seq<char>, part: Seq<char>) -> bool {
    exists|i: int| 0 <= i <= text.len() - part.len() && #[trigger] text.subrange(i, i + part.len()) == part
}

/// When the write succeeds, the answer is a success that carries the
/// invocation's request identifier and a message in which the command occurs.
pub proof fn success_carries_request(request_id: Seq<char>, command: Seq<char>)
    ensures
        response_of(request_id, command, Ok(())) is Ok,
        response_of(request_id, command, Ok(()))->Ok_0.0 == request_id,
        contains(response_of(request_id, command, Ok(()))->Ok_0.1, command),
{
    let msg = success_message_of(command);
    let i = MESSAGE_PREFIX@.len() as int;
    assert(msg.subrange(i, i + command.len()) =~= command);
}

/// When the write fails, the answer is a failure with the fixed message, and
/// the store's detail does not occur in it (for any detail that does not
/// already occur in the fixed message by itself).
pub proof fn failure_hides_detail(request_id: Seq<char>, command: Seq<char>, detail: Seq<char>)
    requires
        !contains(FAILURE_MESSAGE@, detail),
    ensures
        response_of(request_id, command, Err(detail)) == Err::<(Seq<char>, Seq<char>), Seq<char>>(FAILURE_MESSAGE@),
        !contains(response_of(request_id, command, Err(detail))->Err_0, detail),
{
}

/// The answer does not depend on the store's detail of a failure.
pub proof fn failure_ignores_detail(request_id: Seq<char>, command: Seq<char>, d1: Seq<char>, d2: Seq<char>)
    ensures
        response_of(request_id, command, Err(d1)) == response_of(request_id, command, Err(d2)),
{
}

/// Every outcome of the write gets exactly one answer: a success when the
/// write succeeded, a failure when it did not.
pub proof fn one_answer_per_outcome(request_id: Seq<char>, command: Seq<char>, outcome: Result<(), Seq<char>>)
    ensures
        response_of(request_id, command, outcome) is Ok <==> outcome is Ok,
        response_of(request_id, command, outcome) is Err <==> outcome is Err,
{
}

} // verus!
