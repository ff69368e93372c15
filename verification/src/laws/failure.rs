//! What the controller does when a call fails.

use vstd::prelude::*;
use crate::command::{Answer, Command, Step};
use crate::mod_params::{RadioError, RadioMode, RxMode};
use crate::model::{resume, State};
use crate::stage::{Completion, Execution, Stage};

verus! {

/// Whether the controller waits for the interrupt of a running transmission,
/// reception or channel activity detection to be processed.
pub open spec fn processes_interrupt(c: State) -> bool {
    c.stage == Stage::Tx(Execution::Process) || c.stage == Stage::Cad(Execution::Process)
        || c.stage matches Stage::CompleteRx(Completion::Process, _)
}

/// An interrupt that cannot be processed.
///
/// The radio is brought back to standby, and the operation ends with the
/// failure of the interrupt. If bringing it back fails too, the operation
/// ends with that later failure and the mode stays as it was. While a
/// continuous reception is awaited nothing of this is done: the operation
/// ends with the failure at once and the mode stays as it was.
pub proof fn lemma_failed_interrupt(
    c: State,
    cause: RadioError,
    ready: Result<Answer, RadioError>,
    standby: Result<Answer, RadioError>,
)
    requires
        processes_interrupt(c),
    ensures
        ({
            let exempt = c.stage is CompleteRx && c.radio_mode == RadioMode::Receive(
                RxMode::Continuous,
            );
            let failed = resume(c, Err(cause));
            let readied = resume(failed.0, ready);
            let recovered = resume(readied.0, standby);
            if exempt {
                failed == c.finish(Err(cause))
            } else {
                &&& failed.1 == Step::Issue(Command::EnsureReady(c.radio_mode))
                &&& match ready {
                    Err(later) => readied == c.finish(Err(later)),
                    Ok(_) => {
                        &&& readied.1 == Step::Issue(Command::SetStandby)
                        &&& match standby {
                            Err(later) => recovered == c.finish(Err(later)),
                            Ok(_) => recovered == c.in_mode(RadioMode::Standby).finish(Err(cause)),
                        }
                    },
                }
            }
        }),
{
}

/// Any other failure.
///
/// A call that fails while no interrupt is being processed ends the
/// operation with its failure; mode and flags stay as they were.
pub proof fn lemma_failure_ends_operation(c: State, cause: RadioError)
    requires
        !processes_interrupt(c),
    ensures
        resume(c, Err(cause)) == c.finish(Err(cause)),
{
}

} // verus!
