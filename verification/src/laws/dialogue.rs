//! The alternation of calls and answers.

use vstd::prelude::*;
use crate::command::{Answer, Step};
use crate::mod_params::RadioError;
use crate::model::{admits, begin, Request, resume, State};

verus! {

/// The controller is at rest exactly when it has nothing to ask of the radio.
///
/// After an admitted reply the controller either asks for a call, and then
/// admits exactly what that call may return, or the operation has ended and
/// the next one may be asked for.
pub proof fn lemma_dialogue_alternates(c: State, reply: Result<Answer, RadioError>)
    requires
        admits(c, reply),
    ensures
        match resume(c, reply).1 {
            Step::Issue(command) => forall|next: Result<Answer, RadioError>|
                admits(resume(c, reply).0, next) <==> #[trigger] command.may_return(next),
            Step::Finish(_) => resume(c, reply).0.stage is Idle,
        },
{
    match reply {
        Err(_) => {},
        Ok(answer) => {
            if c.stage is Modem {
            } else if c.stage is PrepareForTx || c.stage is PrepareForRx || c.stage
                is PrepareForCad {
            } else if c.stage is Listen || c.stage is ContinuousWave {
            } else if c.stage is Init || c.stage is Sleep || c.stage is Recover {
            } else if c.stage is Tx || c.stage is Cad || c.stage is CompleteRx {
            } else {
            }
        },
    }
}

/// The first move of an operation is of the same kind: a call, after which
/// the controller admits exactly what that call may return, or the end.
pub proof fn lemma_dialogue_starts(c: State, request: Request)
    requires
        c.stage is Idle,
    ensures
        match begin(c, request).1 {
            Step::Issue(command) => forall|next: Result<Answer, RadioError>|
                admits(begin(c, request).0, next) <==> #[trigger] command.may_return(next),
            Step::Finish(_) => begin(c, request).0 == c,
        },
{
}

} // verus!
