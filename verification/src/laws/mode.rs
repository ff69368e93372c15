//! The mode in which operations leave the radio.

use vstd::prelude::*;
use crate::command::{Answer, Command, Step};
use crate::laws::{perform, run};
use crate::mod_params::{ModulationParams, PacketParams, RadioError, RadioMode, RxMode};
use crate::model::{begin, fail, proceed, Request, resume, State};
use crate::stage::{CadSetup, InitStage, ListenSetup, Prepared, RxSetup, Stage, TxSetup, WaveSetup};

verus! {

/// The mode in which the operation under way leaves the radio if it succeeds.
pub open spec fn mode_on_success(c: State) -> RadioMode {
    match c.stage {
        Stage::EnterStandby | Stage::Tx(_) | Stage::Cad(_) => RadioMode::Standby,
        Stage::Init(InitStage::Cold(_)) => c.radio_mode,
        Stage::Init(_) => RadioMode::Standby,
        Stage::Sleep(_, _) => RadioMode::Sleep,
        Stage::Modem(_, Prepared::Tx(_)) | Stage::Modem(_, Prepared::Wave(_)) => {
            RadioMode::Transmit
        },
        Stage::Modem(_, Prepared::Rx(job)) => RadioMode::Receive(job.listen_mode),
        Stage::Modem(_, Prepared::Listen(_)) => RadioMode::Listen,
        Stage::Modem(_, Prepared::Cad(_)) => RadioMode::ChannelActivityDetection,
        Stage::PrepareForTx(TxSetup::Irq, _) => c.radio_mode,
        Stage::PrepareForTx(_, _) => RadioMode::Transmit,
        Stage::PrepareForRx(RxSetup::Irq, _) => c.radio_mode,
        Stage::PrepareForRx(_, job) => RadioMode::Receive(job.listen_mode),
        Stage::Listen(ListenSetup::Rx, _) => c.radio_mode,
        Stage::Listen(_, _) => RadioMode::Listen,
        Stage::PrepareForCad(CadSetup::Irq, _) => c.radio_mode,
        Stage::PrepareForCad(_, _) => RadioMode::ChannelActivityDetection,
        Stage::ContinuousWave(WaveSetup::Irq, _) | Stage::ContinuousWave(WaveSetup::Wave, _) => {
            c.radio_mode
        },
        Stage::ContinuousWave(_, _) => RadioMode::Transmit,
        _ => c.radio_mode,
    }
}

/// Whether a step keeps what [`mode_on_success`] promised in state `before`.
pub open spec fn keeps_promise(before: State, after: State, step: Step) -> bool {
    match step {
        Step::Issue(_) => after.stage is Recover || (!(before.stage is Recover) && mode_on_success(
            after,
        ) == mode_on_success(before)),
        Step::Finish(Ok(_)) => !(before.stage is Recover) && after.radio_mode == mode_on_success(
            before,
        ),
        Step::Finish(Err(_)) => true,
    }
}

proof fn lemma_failure_keeps_promise(c: State, cause: RadioError)
    ensures
        keeps_promise(c, fail(c, cause).0, fail(c, cause).1),
{
}

proof fn lemma_preparation_keeps_promise(c: State, answer: Answer)
    requires
        c.stage is Modem,
    ensures
        keeps_promise(c, proceed(c, answer).0, proceed(c, answer).1),
{
}

proof fn lemma_configuration_keeps_promise(c: State, answer: Answer)
    requires
        c.stage is PrepareForTx || c.stage is PrepareForRx || c.stage is PrepareForCad,
    ensures
        keeps_promise(c, proceed(c, answer).0, proceed(c, answer).1),
{
}

proof fn lemma_test_modes_keep_promise(c: State, answer: Answer)
    requires
        c.stage is Listen || c.stage is ContinuousWave,
    ensures
        keeps_promise(c, proceed(c, answer).0, proceed(c, answer).1),
{
}

proof fn lemma_lifecycle_keeps_promise(c: State, answer: Answer)
    requires
        c.stage is Init || c.stage is Sleep || c.stage is EnterStandby || c.stage is Recover,
    ensures
        keeps_promise(c, proceed(c, answer).0, proceed(c, answer).1),
{
}

proof fn lemma_execution_keeps_promise(c: State, answer: Answer)
    requires
        c.stage is Tx || c.stage is Cad || c.stage is Rx || c.stage is CompleteRx
            || c.stage is RxSwitchChannel,
    ensures
        keeps_promise(c, proceed(c, answer).0, proceed(c, answer).1),
{
}

proof fn lemma_step_keeps_promise(c: State, reply: Result<Answer, RadioError>)
    ensures
        keeps_promise(c, resume(c, reply).0, resume(c, reply).1),
{
    match reply {
        Err(cause) => lemma_failure_keeps_promise(c, cause),
        Ok(answer) => {
            if c.stage is Modem {
                lemma_preparation_keeps_promise(c, answer);
            } else if c.stage is PrepareForTx || c.stage is PrepareForRx || c.stage is PrepareForCad {
                lemma_configuration_keeps_promise(c, answer);
            } else if c.stage is Listen || c.stage is ContinuousWave {
                lemma_test_modes_keep_promise(c, answer);
            } else if c.stage is Init || c.stage is Sleep || c.stage is EnterStandby
                || c.stage is Recover {
                lemma_lifecycle_keeps_promise(c, answer);
            } else if c.stage is Tx || c.stage is Cad || c.stage is Rx || c.stage is CompleteRx
                || c.stage is RxSwitchChannel {
                lemma_execution_keeps_promise(c, answer);
            }
        },
    }
}

/// An operation that succeeds leaves the radio in the mode that
/// [`mode_on_success`] gave at any point on its way, whatever the radio
/// answered; and it does not succeed once it had to bring the radio back to
/// standby after a failure.
pub proof fn lemma_success_sets_mode(
    c: State,
    command: Command,
    replies: Seq<Result<Answer, RadioError>>,
)
    ensures
        keeps_promise(
            c,
            run(c, Step::Issue(command), replies).0,
            run(c, Step::Issue(command), replies).1,
        ),
    decreases replies.len(),
{
    if replies.len() > 0 {
        let next = resume(c, replies[0]);
        lemma_step_keeps_promise(c, replies[0]);
        if let Step::Issue(issued) = next.1 {
            lemma_success_sets_mode(next.0, issued, replies.drop_first());
        } else {
            assert(run(next.0, next.1, replies.drop_first()) == next);
        }
    }
}

/// The mode in which `request` leaves the radio if it succeeds.
pub open spec fn mode_after(c: State, request: Request) -> RadioMode {
    match request {
        Request::Init | Request::EnterStandby | Request::Tx | Request::Cad(_) => {
            RadioMode::Standby
        },
        Request::Sleep(_) => RadioMode::Sleep,
        Request::PrepareForTx(_, _, _, _) | Request::ContinuousWave(_, _) => RadioMode::Transmit,
        Request::PrepareForRx(listen_mode, _, _) => RadioMode::Receive(listen_mode),
        Request::Listen(_, _) => RadioMode::Listen,
        Request::PrepareForCad(_) => RadioMode::ChannelActivityDetection,
        _ => c.radio_mode,
    }
}

/// The mode in which an operation may be asked for.
pub open spec fn allowed_in(request: Request, radio_mode: RadioMode) -> bool {
    match request {
        Request::Tx => radio_mode is Transmit,
        Request::RxSwitchChannel(_)
        | Request::StartRx
        | Request::CompleteRx(_)
        | Request::GetRxResult(_)
        | Request::Rx(_) => radio_mode is Receive,
        Request::Cad(_) => radio_mode is ChannelActivityDetection,
        _ => true,
    }
}

/// An operation asked for in a mode that does not allow it is refused at
/// once: no call is made on the radio and the controller stays as it is.
pub proof fn lemma_refused_in_wrong_mode(c: State, request: Request)
    requires
        c.stage is Idle,
        !allowed_in(request, c.radio_mode),
    ensures
        begin(c, request) == (c, Step::Finish(Err(RadioError::InvalidRadioMode))),
{
}

/// An operation asked for in a mode that allows it starts with a call on the
/// radio, unless it is a sleep asked of a radio that sleeps already.
pub proof fn lemma_allowed_starts_with_a_call(c: State, request: Request)
    requires
        allowed_in(request, c.radio_mode),
        !(request is Sleep && c.radio_mode is Sleep),
    ensures
        begin(c, request).1 is Issue,
        !(begin(c, request).0.stage is Idle),
{
}

/// The mode after a successful operation.
///
/// A transmission and a channel activity detection leave the radio in
/// standby. The completion of a reception leaves the mode as it was. A
/// preparation leaves the mode of the operation it prepares. And an
/// operation that is tied to a mode succeeds only if it was asked for in
/// that mode.
pub proof fn lemma_mode_after_success(
    c: State,
    request: Request,
    replies: Seq<Result<Answer, RadioError>>,
)
    ensures
        perform(c, request, replies).1 matches Step::Finish(Ok(_)) ==> {
            &&& perform(c, request, replies).0.radio_mode == mode_after(c, request)
            &&& allowed_in(request, c.radio_mode)
        },
{
    let started = begin(c, request);
    match started.1 {
        Step::Issue(command) => {
            lemma_success_sets_mode(started.0, command, replies);
        },
        Step::Finish(_) => {
            assert(run(started.0, started.1, replies) == started);
        },
    }
}

/// Prepare, then transmit: if both succeed the radio is in standby.
pub proof fn lemma_transmission_ends_in_standby(
    c: State,
    mdltn_params: ModulationParams,
    tx_pkt_params: PacketParams,
    output_power: i32,
    length: usize,
    preparing: Seq<Result<Answer, RadioError>>,
    transmitting: Seq<Result<Answer, RadioError>>,
)
    ensures
        ({
            let prepared = perform(
                c,
                Request::PrepareForTx(mdltn_params, tx_pkt_params, output_power, length),
                preparing,
            );
            let sent = perform(prepared.0, Request::Tx, transmitting);
            prepared.1 matches Step::Finish(Ok(_)) ==> {
                &&& prepared.0.radio_mode == RadioMode::Transmit
                &&& sent.1 matches Step::Finish(Ok(_)) ==> sent.0.radio_mode == RadioMode::Standby
            }
        }),
{
    let request = Request::PrepareForTx(mdltn_params, tx_pkt_params, output_power, length);
    lemma_mode_after_success(c, request, preparing);
    lemma_mode_after_success(perform(c, request, preparing).0, Request::Tx, transmitting);
}

/// Prepare, then receive: if both succeed the radio is still in the receive
/// mode that it was prepared for.
pub proof fn lemma_reception_stays_in_receive(
    c: State,
    listen_mode: RxMode,
    mdltn_params: ModulationParams,
    rx_pkt_params: PacketParams,
    preparing: Seq<Result<Answer, RadioError>>,
    receiving: Seq<Result<Answer, RadioError>>,
)
    ensures
        ({
            let prepared = perform(
                c,
                Request::PrepareForRx(listen_mode, mdltn_params, rx_pkt_params),
                preparing,
            );
            let received = perform(prepared.0, Request::Rx(rx_pkt_params), receiving);
            prepared.1 matches Step::Finish(Ok(_)) ==> {
                &&& prepared.0.radio_mode == RadioMode::Receive(listen_mode)
                &&& received.1 matches Step::Finish(Ok(_)) ==> received.0.radio_mode
                    == RadioMode::Receive(listen_mode)
            }
        }),
{
    let request = Request::PrepareForRx(listen_mode, mdltn_params, rx_pkt_params);
    lemma_mode_after_success(c, request, preparing);
    lemma_mode_after_success(
        perform(c, request, preparing).0,
        Request::Rx(rx_pkt_params),
        receiving,
    );
}

/// Prepare, then detect channel activity: if both succeed the radio is in
/// standby.
pub proof fn lemma_detection_ends_in_standby(
    c: State,
    mdltn_params: ModulationParams,
    preparing: Seq<Result<Answer, RadioError>>,
    detecting: Seq<Result<Answer, RadioError>>,
)
    ensures
        ({
            let prepared = perform(c, Request::PrepareForCad(mdltn_params), preparing);
            let detected = perform(prepared.0, Request::Cad(mdltn_params), detecting);
            prepared.1 matches Step::Finish(Ok(_)) ==> {
                &&& prepared.0.radio_mode == RadioMode::ChannelActivityDetection
                &&& detected.1 matches Step::Finish(Ok(_)) ==> detected.0.radio_mode
                    == RadioMode::Standby
            }
        }),
{
    let request = Request::PrepareForCad(mdltn_params);
    lemma_mode_after_success(c, request, preparing);
    lemma_mode_after_success(
        perform(c, request, preparing).0,
        Request::Cad(mdltn_params),
        detecting,
    );
}

} // verus!
