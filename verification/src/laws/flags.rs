//! The bookkeeping of cold starts and image calibrations.

use vstd::prelude::*;
use crate::command::{Answer, Command, Step};
use crate::laws::{perform, run};
use crate::mod_params::{RadioError, RadioMode};
use crate::model::{begin, fail, proceed, Request, resume, State};
use crate::stage::{ColdStart, InitStage, Modem, Prepared, SleepStage, Stage};

verus! {

/// What holds while a radio is put to sleep, and after.
pub open spec fn sleep_keeps_account(
    before: State,
    warm_start_if_possible: bool,
    c: State,
    step: Step,
) -> bool {
    match step {
        Step::Issue(_) => {
            &&& c.stage matches Stage::Sleep(_, warm)
            &&& warm == warm_start_if_possible
            &&& c.cold_start == before.cold_start
            &&& !(before.radio_mode is Sleep)
        },
        Step::Finish(result) => if warm_start_if_possible {
            c.cold_start == before.cold_start
        } else {
            &&& before.cold_start ==> c.cold_start
            &&& result is Ok && !(before.radio_mode is Sleep) ==> c.cold_start
        },
    }
}

proof fn lemma_sleep_step(
    before: State,
    warm_start_if_possible: bool,
    c: State,
    command: Command,
    reply: Result<Answer, RadioError>,
)
    requires
        sleep_keeps_account(before, warm_start_if_possible, c, Step::Issue(command)),
    ensures
        sleep_keeps_account(
            before,
            warm_start_if_possible,
            resume(c, reply).0,
            resume(c, reply).1,
        ),
{
}

proof fn lemma_sleep_run(
    before: State,
    warm_start_if_possible: bool,
    c: State,
    step: Step,
    replies: Seq<Result<Answer, RadioError>>,
)
    requires
        sleep_keeps_account(before, warm_start_if_possible, c, step),
    ensures
        sleep_keeps_account(
            before,
            warm_start_if_possible,
            run(c, step, replies).0,
            run(c, step, replies).1,
        ),
    decreases replies.len(),
{
    if replies.len() > 0 {
        if let Step::Issue(command) = step {
            let next = resume(c, replies[0]);
            lemma_sleep_step(before, warm_start_if_possible, c, command, replies[0]);
            lemma_sleep_run(before, warm_start_if_possible, next.0, next.1, replies.drop_first());
        }
    }
}

/// Sleep and the cold-start flag.
///
/// A sleep for which a warm start was asked leaves the flag as it was,
/// whatever the radio answers. A sleep for which none was asked never clears
/// the flag, and sets it when it succeeds in putting an awake radio to sleep.
/// (Asked of a radio that sleeps already it does nothing, and so leaves a
/// flag that a warm sleep left clear.)
pub proof fn lemma_sleep_and_cold_start(
    c: State,
    warm_start_if_possible: bool,
    replies: Seq<Result<Answer, RadioError>>,
)
    ensures
        ({
            let slept = perform(c, Request::Sleep(warm_start_if_possible), replies);
            if warm_start_if_possible {
                slept.0.cold_start == c.cold_start
            } else {
                &&& c.cold_start ==> slept.0.cold_start
                &&& slept.1 matches Step::Finish(Ok(_)) ==> slept.0.cold_start
                    || c.radio_mode is Sleep
            }
        }),
{
    let started = begin(c, Request::Sleep(warm_start_if_possible));
    lemma_sleep_run(c, warm_start_if_possible, started.0, started.1, replies);
}

/// One thing that happens to a controller.
pub enum Event {
    /// An operation is asked of it.
    Call(Request),
    /// The radio answers the call that it asked for.
    Reply(Result<Answer, RadioError>),
    /// The operation under way is given up.
    Abandon,
}

/// The controller after an event.
pub open spec fn after(c: State, event: Event) -> State {
    match event {
        Event::Call(request) => begin(c, request).0,
        Event::Reply(reply) => resume(c, reply).0,
        Event::Abandon => c.at(Stage::Idle),
    }
}

/// The controller after a sequence of events.
pub open spec fn after_all(c: State, events: Seq<Event>) -> State
    decreases events.len(),
{
    if events.len() == 0 {
        c
    } else {
        after(after_all(c, events.drop_last()), events.last())
    }
}

/// Whether `event`, arriving in state `c`, is the success of the last call
/// of a cold start.
pub open spec fn completes_cold_start(c: State, event: Event) -> bool {
    &&& event matches Event::Reply(Ok(_))
    &&& c.stage == Stage::Init(InitStage::Cold(ColdStart::IrqParams)) || c.stage
        matches Stage::Modem(Modem::Cold(ColdStart::IrqParams), _)
}

/// Whether `event`, arriving in state `c`, is the success of an image
/// calibration.
pub open spec fn completes_calibration(c: State, event: Event) -> bool {
    &&& event matches Event::Reply(Ok(_))
    &&& c.stage matches Stage::Modem(Modem::Calibrate, _)
}

/// The number of cold starts that run to their end in a sequence of events.
pub open spec fn cold_starts(c: State, events: Seq<Event>) -> nat
    decreases events.len(),
{
    if events.len() == 0 {
        0
    } else if completes_cold_start(after_all(c, events.drop_last()), events.last()) {
        cold_starts(c, events.drop_last()) + 1
    } else {
        cold_starts(c, events.drop_last())
    }
}

/// The number of image calibrations that succeed in a sequence of events.
pub open spec fn calibrations(c: State, events: Seq<Event>) -> nat
    decreases events.len(),
{
    if events.len() == 0 {
        0
    } else if completes_calibration(after_all(c, events.drop_last()), events.last()) {
        calibrations(c, events.drop_last()) + 1
    } else {
        calibrations(c, events.drop_last())
    }
}

/// The image calibrations that the controller may still ask for before the
/// next cold start: one if a cold start has run and none has followed it.
pub open spec fn calibrations_owed(c: State) -> nat {
    if c.calibrate_image && !c.cold_start {
        1
    } else {
        0
    }
}

/// While an image calibration is under way, one is owed.
pub open spec fn calibrates_only_when_owed(c: State) -> bool {
    c.stage matches Stage::Modem(Modem::Calibrate, _) ==> c.calibrate_image && !c.cold_start
}

proof fn lemma_call_keeps_account(c: State, request: Request)
    requires
        calibrates_only_when_owed(c),
    ensures
        calibrates_only_when_owed(begin(c, request).0),
        calibrations_owed(begin(c, request).0) <= calibrations_owed(c),
{
}

proof fn lemma_failure_keeps_account(c: State, cause: RadioError)
    requires
        calibrates_only_when_owed(c),
    ensures
        calibrates_only_when_owed(fail(c, cause).0),
        calibrations_owed(fail(c, cause).0) == calibrations_owed(c),
{
}

proof fn lemma_preparation_keeps_account(c: State, answer: Answer)
    requires
        calibrates_only_when_owed(c),
        c.stage is Modem,
    ensures
        calibrates_only_when_owed(proceed(c, answer).0),
        calibrations_owed(proceed(c, answer).0) + (if c.stage matches Stage::Modem(
            Modem::Calibrate,
            _,
        ) {
            1nat
        } else {
            0nat
        }) <= calibrations_owed(c) + (if c.stage matches Stage::Modem(
            Modem::Cold(ColdStart::IrqParams),
            _,
        ) {
            1nat
        } else {
            0nat
        }),
{
}

proof fn lemma_lifecycle_keeps_account(c: State, answer: Answer)
    requires
        c.stage is Init || c.stage is Sleep,
    ensures
        calibrates_only_when_owed(proceed(c, answer).0),
        calibrations_owed(proceed(c, answer).0) <= calibrations_owed(c) + (if c.stage
            == Stage::Init(InitStage::Cold(ColdStart::IrqParams)) {
            1nat
        } else {
            0nat
        }),
{
}

proof fn lemma_rest_keeps_account(c: State, answer: Answer)
    requires
        !(c.stage is Init || c.stage is Sleep || c.stage is Modem),
    ensures
        calibrates_only_when_owed(proceed(c, answer).0),
        calibrations_owed(proceed(c, answer).0) == calibrations_owed(c),
{
    if c.stage is PrepareForTx || c.stage is PrepareForRx || c.stage is PrepareForCad {
    } else if c.stage is Listen || c.stage is ContinuousWave {
    } else if c.stage is Tx || c.stage is Cad || c.stage is CompleteRx {
    } else {
    }
}

proof fn lemma_event_keeps_account(c: State, event: Event)
    requires
        calibrates_only_when_owed(c),
    ensures
        calibrates_only_when_owed(after(c, event)),
        calibrations_owed(after(c, event)) + (if completes_calibration(c, event) {
            1nat
        } else {
            0nat
        }) <= calibrations_owed(c) + (if completes_cold_start(c, event) {
            1nat
        } else {
            0nat
        }),
{
    match event {
        Event::Abandon => {},
        Event::Call(request) => lemma_call_keeps_account(c, request),
        Event::Reply(Err(cause)) => lemma_failure_keeps_account(c, cause),
        Event::Reply(Ok(answer)) => {
            if c.stage is Modem {
                lemma_preparation_keeps_account(c, answer);
            } else if c.stage is Init || c.stage is Sleep {
                lemma_lifecycle_keeps_account(c, answer);
            } else {
                lemma_rest_keeps_account(c, answer);
            }
        },
    }
}

/// Image calibrations are paid for by cold starts.
///
/// Whatever is asked of a controller, whatever its radio answers and
/// whatever is given up halfway, the calibrations that succeed, together with the one that may still be owed
/// at the end, are no more than the cold starts that ran to their end
/// together with the calibration that was owed at the start.
pub proof fn lemma_calibrations_are_accounted_for(c: State, events: Seq<Event>)
    requires
        calibrates_only_when_owed(c),
    ensures
        calibrates_only_when_owed(after_all(c, events)),
        calibrations(c, events) + calibrations_owed(after_all(c, events)) <= cold_starts(c, events)
            + calibrations_owed(c),
    decreases events.len(),
{
    if events.len() > 0 {
        lemma_calibrations_are_accounted_for(c, events.drop_last());
        lemma_event_keeps_account(after_all(c, events.drop_last()), events.last());
    }
}

/// At most one image calibration per cold start.
///
/// A new controller owes a cold start. From then on, however many operations
/// follow and whatever the radio answers, no more image calibrations succeed
/// than cold starts have run to their end.
pub proof fn lemma_one_calibration_per_cold_start(sync_word: u8, events: Seq<Event>)
    ensures
        State::fresh(sync_word).cold_start,
        calibrations(State::fresh(sync_word), events) <= cold_starts(
            State::fresh(sync_word),
            events,
        ),
{
    lemma_calibrations_are_accounted_for(State::fresh(sync_word), events);
}

/// What holds while the modem is prepared for an operation, and after.
pub open spec fn settles_flags(c: State, step: Step) -> bool {
    match step {
        Step::Issue(_) => match c.stage {
            Stage::Modem(Modem::Calibrate, _) => !c.cold_start,
            Stage::Modem(_, _) => true,
            Stage::PrepareForTx(_, _)
            | Stage::PrepareForRx(_, _)
            | Stage::Listen(_, _)
            | Stage::PrepareForCad(_, _)
            | Stage::ContinuousWave(_, _) => !c.cold_start && !c.calibrate_image,
            _ => false,
        },
        Step::Finish(Ok(_)) => !c.cold_start && !c.calibrate_image,
        Step::Finish(Err(_)) => true,
    }
}

proof fn lemma_settling_step(c: State, command: Command, reply: Result<Answer, RadioError>)
    requires
        settles_flags(c, Step::Issue(command)),
    ensures
        settles_flags(resume(c, reply).0, resume(c, reply).1),
{
    match reply {
        Err(_) => {},
        Ok(_) => {
            if c.stage is Modem {
            } else if c.stage is PrepareForTx || c.stage is PrepareForRx || c.stage
                is PrepareForCad {
            } else {
            }
        },
    }
}

proof fn lemma_settling_run(
    c: State,
    command: Command,
    replies: Seq<Result<Answer, RadioError>>,
)
    requires
        settles_flags(c, Step::Issue(command)),
    ensures
        settles_flags(
            run(c, Step::Issue(command), replies).0,
            run(c, Step::Issue(command), replies).1,
        ),
    decreases replies.len(),
{
    if replies.len() > 0 {
        let next = resume(c, replies[0]);
        lemma_settling_step(c, command, replies[0]);
        match next.1 {
            Step::Issue(issued) => lemma_settling_run(next.0, issued, replies.drop_first()),
            Step::Finish(_) => {
                assert(run(next.0, next.1, replies.drop_first()) == next);
            },
        }
    }
}

/// Whether an operation starts with the preparation of the modem.
pub open spec fn needs_modem(request: Request) -> bool {
    request is PrepareForTx || request is PrepareForRx || request is Listen || request
        is PrepareForCad || request is ContinuousWave
}

/// An operation that needs the modem and succeeds leaves no cold start and
/// no image calibration owed: the next such operation finds the modem
/// initialised and calibrated, and asks for neither again.
pub proof fn lemma_preparation_settles_flags(
    c: State,
    request: Request,
    replies: Seq<Result<Answer, RadioError>>,
)
    requires
        needs_modem(request),
    ensures
        perform(c, request, replies).1 matches Step::Finish(Ok(_)) ==> {
            &&& !perform(c, request, replies).0.cold_start
            &&& !perform(c, request, replies).0.calibrate_image
        },
{
    let started = begin(c, request);
    lemma_settling_run(started.0, started.1->Issue_0, replies);
}

/// The cold start within the preparation of the modem is asked for if and
/// only if one is owed, and the image calibration if and only if one is owed
/// once the cold start, if any, is over.
pub proof fn lemma_modem_is_prepared_as_owed(c: State, operation: Prepared, answer: Answer)
    requires
        c.stage == Stage::Modem(Modem::Ready, operation) && c.radio_mode == RadioMode::Standby
            || c.stage == Stage::Modem(Modem::Standby, operation),
    ensures
        proceed(c, answer).1 == Step::Issue(Command::InitLora(c.sync_word)) <==> c.cold_start,
        proceed(c, answer).1 == Step::Issue(Command::CalibrateImage(operation.spec_frequency()))
            <==> !c.cold_start && c.calibrate_image,
        !(proceed(c, answer).1 is Finish),
{
}

/// A cold start that runs to its end is not owed any more, and leaves an
/// image calibration owed.
pub proof fn lemma_cold_start_clears_flag(c: State, answer: Answer)
    requires
        completes_cold_start(c, Event::Reply(Ok(answer))),
    ensures
        !proceed(c, answer).0.cold_start,
        proceed(c, answer).0.calibrate_image,
{
}

/// Whether an event may leave a cold start owed that was not owed before:
/// the request for an initialisation, and the success of a sleep for which
/// no warm start was asked.
pub open spec fn loses_configuration(c: State, event: Event) -> bool {
    match event {
        Event::Call(request) => request is Init,
        Event::Reply(reply) => reply is Ok && c.stage == Stage::Sleep(SleepStage::Sleep, false),
        Event::Abandon => false,
    }
}

proof fn lemma_answer_keeps_flags(c: State, answer: Answer)
    requires
        !(c.stage is Init || c.stage is Sleep || c.stage is Modem),
    ensures
        proceed(c, answer).0.cold_start == c.cold_start,
        proceed(c, answer).0.calibrate_image == c.calibrate_image,
{
    if c.stage is PrepareForTx || c.stage is PrepareForRx || c.stage is PrepareForCad {
    } else if c.stage is Listen || c.stage is ContinuousWave {
    } else if c.stage is Tx || c.stage is Cad || c.stage is CompleteRx {
    } else {
    }
}

/// The flags change only where they are meant to.
///
/// A cold start, once it has run, is not owed again before the radio is
/// reset or put to sleep without a warm start. An image calibration, once
/// it has succeeded, is not owed again before the next cold start has run.
pub proof fn lemma_flags_are_raised_on_purpose(c: State, event: Event)
    ensures
        !c.cold_start && after(c, event).cold_start ==> loses_configuration(c, event),
        !c.calibrate_image && after(c, event).calibrate_image ==> completes_cold_start(c, event),
{
    match event {
        Event::Abandon => {},
        Event::Call(_) => {},
        Event::Reply(Err(_)) => {},
        Event::Reply(Ok(answer)) => {
            if c.stage is Init || c.stage is Sleep || c.stage is Modem {
            } else {
                lemma_answer_keeps_flags(c, answer);
            }
        },
    }
}

} // verus!
