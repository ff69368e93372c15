//! What holds of every dialogue with the controller.

use vstd::prelude::*;
use crate::command::{Answer, Step};
use crate::mod_params::RadioError;
use crate::model::{begin, Request, resume, State};

pub mod dialogue;
pub mod failure;
pub mod flags;
pub mod mode;
pub mod payload;

verus! {

/// Where an operation stands once the radio has answered its calls with
/// `replies`, in this order, from the point where the controller is in state
/// `c` and has made the move `step`. Replies beyond the end of the operation
/// are not looked at.
pub open spec fn run(c: State, step: Step, replies: Seq<Result<Answer, RadioError>>) -> (
    State,
    Step,
)
    decreases replies.len(),
{
    if replies.len() == 0 || step is Finish {
        (c, step)
    } else {
        let next = resume(c, replies[0]);
        run(next.0, next.1, replies.drop_first())
    }
}

/// Where the operation that `request` asks of a controller at rest in state
/// `c` stands once the radio has answered its calls with `replies`.
pub open spec fn perform(c: State, request: Request, replies: Seq<Result<Answer, RadioError>>) -> (
    State,
    Step,
) {
    run(begin(c, request).0, begin(c, request).1, replies)
}

/// Whether every call succeeded.
pub open spec fn all_succeed(replies: Seq<Result<Answer, RadioError>>) -> bool {
    forall|i: int| 0 <= i < replies.len() ==> (#[trigger] replies[i]) is Ok
}

} // verus!
