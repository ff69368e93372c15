//! What the operations do, call by call, when the radio does as it is told.

use vstd::prelude::*;
use crate::command::{Answer, Command, Output, Step};
use crate::laws::run;
use crate::mod_params::{
    Bandwidth, IrqState, ModulationParams, PacketParams, PacketStatus, RadioError, RadioMode,
    RxMode, MAX_PAYLOAD_LENGTH,
};
use crate::model::{
    begin, calibrate, carrier_framing, configure, frame, listening_modulation, prepare, resume,
    transmit_power, warm_up, Request, State,
};
use crate::stage::{
    ColdStart, Completion, Execution, InitStage, ListenJob, Prepared, RxJob, Stage, TxJob, WaveJob,
};

verus! {

/// Whether the dialogue that starts with the controller in state `c` making
/// the move `step` goes as `transcript` says, call by call and answer by
/// answer, and gets to `outcome`: the state of the controller and its move
/// after the last answer.
pub open spec fn unfolds(
    c: State,
    step: Step,
    transcript: Seq<(Command, Result<Answer, RadioError>)>,
    outcome: (State, Step),
) -> bool
    decreases transcript.len(),
{
    if transcript.len() == 0 {
        (c, step) == outcome
    } else {
        let next = resume(c, transcript[0].1);
        step == Step::Issue(transcript[0].0) && unfolds(
            next.0,
            next.1,
            transcript.drop_first(),
            outcome,
        )
    }
}

/// A call that the radio answers with plain success.
pub open spec fn done(command: Command) -> (Command, Result<Answer, RadioError>) {
    (command, Ok(Answer::Done))
}

/// A dialogue can be told one exchange at a time.
pub proof fn lemma_unfolds_one(
    c: State,
    exchange: (Command, Result<Answer, RadioError>),
    rest: Seq<(Command, Result<Answer, RadioError>)>,
    outcome: (State, Step),
)
    requires
        unfolds(resume(c, exchange.1).0, resume(c, exchange.1).1, rest, outcome),
    ensures
        unfolds(c, Step::Issue(exchange.0), seq![exchange] + rest, outcome),
{
    let transcript = seq![exchange] + rest;
    assert(transcript[0] == exchange);
    assert(transcript.drop_first() =~= rest);
}

/// A dialogue can be told in two parts.
pub proof fn lemma_unfolds_in_parts(
    c: State,
    step: Step,
    first: Seq<(Command, Result<Answer, RadioError>)>,
    between: (State, Step),
    second: Seq<(Command, Result<Answer, RadioError>)>,
    outcome: (State, Step),
)
    requires
        unfolds(c, step, first, between),
        unfolds(between.0, between.1, second, outcome),
    ensures
        unfolds(c, step, first + second, outcome),
    decreases first.len(),
{
    if first.len() == 0 {
        assert(first + second =~= second);
    } else {
        let next = resume(c, first[0].1);
        lemma_unfolds_in_parts(next.0, next.1, first.drop_first(), between, second, outcome);
        assert((first + second)[0] == first[0]);
        assert((first + second).drop_first() =~= first.drop_first() + second);
    }
}

/// The answers of a transcript.
pub open spec fn replies_of(transcript: Seq<(Command, Result<Answer, RadioError>)>) -> Seq<
    Result<Answer, RadioError>,
> {
    transcript.map_values(|exchange: (Command, Result<Answer, RadioError>)| exchange.1)
}

/// A dialogue that goes as a transcript says is the run of the controller
/// on the transcript's answers.
pub proof fn lemma_unfolds_runs(
    c: State,
    step: Step,
    transcript: Seq<(Command, Result<Answer, RadioError>)>,
    outcome: (State, Step),
)
    requires
        unfolds(c, step, transcript, outcome),
    ensures
        run(c, step, replies_of(transcript)) == outcome,
    decreases transcript.len(),
{
    if transcript.len() > 0 {
        let next = resume(c, transcript[0].1);
        lemma_unfolds_runs(next.0, next.1, transcript.drop_first(), outcome);
        assert(replies_of(transcript)[0] == transcript[0].1);
        assert(replies_of(transcript).drop_first() =~= replies_of(transcript.drop_first()));
    }
}

/// The modem once it is prepared: in standby, initialised and calibrated.
pub open spec fn prepared(c: State) -> State {
    State { radio_mode: RadioMode::Standby, cold_start: false, calibrate_image: false, ..c }
}

/// The calls of a cold start.
pub open spec fn cold_start_calls(sync_word: u8) -> Seq<(Command, Result<Answer, RadioError>)> {
    seq![
        done(Command::InitLora(sync_word)),
        done(Command::SetTxPowerAndRampTime { output_power: 0, mdltn_params: None, is_tx: false }),
        done(Command::SetIrqParams(Some(RadioMode::Standby))),
    ]
}

/// The cold start of a preparation: made if one is owed.
pub open spec fn cold_start_if_owed(c: State) -> Seq<(Command, Result<Answer, RadioError>)> {
    if c.cold_start {
        cold_start_calls(c.sync_word)
    } else {
        Seq::empty()
    }
}

/// The image calibration of a preparation: made if one is owed, as it always
/// is after a cold start.
pub open spec fn calibration_if_owed(c: State, frequency_in_hz: u32) -> Seq<
    (Command, Result<Answer, RadioError>),
> {
    if c.cold_start || c.calibrate_image {
        seq![done(Command::CalibrateImage(frequency_in_hz))]
    } else {
        Seq::empty()
    }
}

/// The calls that prepare the modem for the use of a frequency: wait until
/// the radio is ready, force standby unless it is there, cold start if owed,
/// calibrate the image for that frequency if owed.
pub open spec fn preparation(c: State, frequency_in_hz: u32) -> Seq<
    (Command, Result<Answer, RadioError>),
> {
    seq![done(Command::EnsureReady(c.radio_mode))] + (if c.radio_mode != RadioMode::Standby {
        seq![done(Command::SetStandby)]
    } else {
        Seq::empty()
    }) + cold_start_if_owed(c) + calibration_if_owed(c, frequency_in_hz)
}

proof fn lemma_calibration_unfolds(c: State, operation: Prepared)
    requires
        c.radio_mode == RadioMode::Standby,
        !c.cold_start,
    ensures
        unfolds(
            calibrate(c, operation).0,
            calibrate(c, operation).1,
            calibration_if_owed(c, operation.spec_frequency()),
            configure(prepared(c), operation),
        ),
{
    reveal_with_fuel(unfolds, 2);
    if !c.calibrate_image {
        assert(prepared(c) == c);
    }
}

proof fn lemma_warm_up_unfolds(c: State, operation: Prepared)
    requires
        c.radio_mode == RadioMode::Standby,
    ensures
        unfolds(
            warm_up(c, operation).0,
            warm_up(c, operation).1,
            cold_start_if_owed(c) + calibration_if_owed(c, operation.spec_frequency()),
            configure(prepared(c), operation),
        ),
{
    let frequency = operation.spec_frequency();
    if c.cold_start {
        let started = c.cold_started();
        let between = calibrate(started, operation);
        lemma_calibration_unfolds(started, operation);
        assert(calibration_if_owed(started, frequency) == calibration_if_owed(c, frequency));
        assert(prepared(started) == prepared(c));
        assert(unfolds(
            warm_up(c, operation).0,
            warm_up(c, operation).1,
            cold_start_calls(c.sync_word),
            between,
        )) by {
            reveal_with_fuel(unfolds, 4);
        }
        lemma_unfolds_in_parts(
            warm_up(c, operation).0,
            warm_up(c, operation).1,
            cold_start_calls(c.sync_word),
            between,
            calibration_if_owed(c, frequency),
            configure(prepared(c), operation),
        );
    } else {
        lemma_calibration_unfolds(c, operation);
        assert(cold_start_if_owed(c) + calibration_if_owed(c, frequency) =~= calibration_if_owed(
            c,
            frequency,
        ));
    }
}

/// The preparation of the modem, call by call. It leaves the modem prepared
/// and goes on with the first call of the operation's own configuration.
pub proof fn lemma_preparation_unfolds(c: State, operation: Prepared)
    ensures
        unfolds(
            prepare(c, operation).0,
            prepare(c, operation).1,
            preparation(c, operation.spec_frequency()),
            configure(prepared(c), operation),
        ),
{
    let frequency = operation.spec_frequency();
    let rest = cold_start_if_owed(c) + calibration_if_owed(c, frequency);
    let outcome = configure(prepared(c), operation);
    let ready = resume(prepare(c, operation).0, Ok(Answer::Done));
    let standby = c.in_mode(RadioMode::Standby);
    lemma_warm_up_unfolds(standby, operation);
    assert(prepared(standby) == prepared(c));
    if c.radio_mode != RadioMode::Standby {
        lemma_unfolds_one(ready.0, done(Command::SetStandby), rest, outcome);
        lemma_unfolds_one(
            prepare(c, operation).0,
            done(Command::EnsureReady(c.radio_mode)),
            seq![done(Command::SetStandby)] + rest,
            outcome,
        );
        assert(preparation(c, frequency) =~= seq![done(Command::EnsureReady(c.radio_mode))] + (seq![
            done(Command::SetStandby),
        ] + rest));
    } else {
        assert(standby == c);
        lemma_unfolds_one(
            prepare(c, operation).0,
            done(Command::EnsureReady(c.radio_mode)),
            rest,
            outcome,
        );
        assert(preparation(c, frequency) =~= seq![done(Command::EnsureReady(c.radio_mode))] + rest);
    }
}

/// An operation that needs the modem, call by call: the preparation of the
/// modem, then the operation's own calls.
pub proof fn lemma_prepared_unfolds(
    c: State,
    operation: Prepared,
    own: Seq<(Command, Result<Answer, RadioError>)>,
    outcome: (State, Step),
)
    requires
        unfolds(
            configure(prepared(c), operation).0,
            configure(prepared(c), operation).1,
            own,
            outcome,
        ),
    ensures
        unfolds(
            prepare(c, operation).0,
            prepare(c, operation).1,
            preparation(c, operation.spec_frequency()) + own,
            outcome,
        ),
{
    lemma_preparation_unfolds(c, operation);
    lemma_unfolds_in_parts(
        prepare(c, operation).0,
        prepare(c, operation).1,
        preparation(c, operation.spec_frequency()),
        configure(prepared(c), operation),
        own,
        outcome,
    );
}

/// An initialisation, call by call: reset, wait until ready, force standby,
/// cold start. It leaves the radio in standby with an image calibration owed.
pub proof fn lemma_init_unfolds(c: State)
    ensures
        unfolds(
            begin(c, Request::Init).0,
            begin(c, Request::Init).1,
            seq![
                done(Command::Reset),
                done(Command::EnsureReady(c.radio_mode)),
                done(Command::SetStandby),
            ] + cold_start_calls(c.sync_word),
            State {
                radio_mode: RadioMode::Standby,
                cold_start: false,
                calibrate_image: true,
                ..c
            }.finish(Ok(Output::Done)),
        ),
{
    let head = seq![
        done(Command::Reset),
        done(Command::EnsureReady(c.radio_mode)),
        done(Command::SetStandby),
    ];
    let tail = cold_start_calls(c.sync_word);
    let started = begin(c, Request::Init);
    let between = State { cold_start: true, ..c }.in_mode(RadioMode::Standby).issue(
        Stage::Init(InitStage::Cold(ColdStart::InitLora)),
        Command::InitLora(c.sync_word),
    );
    let outcome = State {
        radio_mode: RadioMode::Standby,
        cold_start: false,
        calibrate_image: true,
        ..c
    }.finish(Ok(Output::Done));
    assert(unfolds(started.0, started.1, head, between)) by {
        reveal_with_fuel(unfolds, 4);
    }
    assert(unfolds(between.0, between.1, tail, outcome)) by {
        reveal_with_fuel(unfolds, 4);
    }
    lemma_unfolds_in_parts(started.0, started.1, head, between, tail, outcome);
}

/// Putting an awake radio to sleep, call by call.
pub proof fn lemma_sleep_unfolds(c: State, warm_start_if_possible: bool)
    requires
        !(c.radio_mode is Sleep),
    ensures
        unfolds(
            begin(c, Request::Sleep(warm_start_if_possible)).0,
            begin(c, Request::Sleep(warm_start_if_possible)).1,
            seq![
                done(Command::EnsureReady(c.radio_mode)),
                done(Command::SetSleep(warm_start_if_possible)),
            ],
            State {
                radio_mode: RadioMode::Sleep,
                cold_start: c.cold_start || !warm_start_if_possible,
                ..c
            }.finish(Ok(Output::Done)),
        ),
{
    reveal_with_fuel(unfolds, 3);
}

/// The calls that configure a transmission once the modem is prepared, up to
/// the point where the payload length is recorded.
pub open spec fn transmission_setup(job: TxJob) -> Seq<(Command, Result<Answer, RadioError>)> {
    seq![
        done(Command::SetModulationParams(job.mdltn_params)),
        done(transmit_power(job.output_power, job.mdltn_params)),
        done(Command::EnsureReady(RadioMode::Standby)),
    ]
}

/// The calls that program a packet for transmission.
pub open spec fn transmission_framing(job: TxJob) -> Seq<(Command, Result<Answer, RadioError>)> {
    seq![
        done(
            Command::SetPacketParams(job.tx_pkt_params.with_payload_length(job.length as u8)),
        ),
        done(Command::SetChannel(job.mdltn_params.frequency_in_hz)),
        done(Command::SetPayload),
        done(Command::SetIrqParams(Some(RadioMode::Transmit))),
    ]
}

/// The preparation of a transmission, call by call: the modem is prepared,
/// modulation and power are programmed, and then either the packet with the
/// length of the payload in its framing, or, if the payload is too long,
/// nothing more.
pub proof fn lemma_prepare_for_tx_unfolds(
    c: State,
    mdltn_params: ModulationParams,
    tx_pkt_params: PacketParams,
    output_power: i32,
    length: usize,
)
    ensures
        ({
            let job = TxJob { mdltn_params, tx_pkt_params, output_power, length };
            let started = begin(
                c,
                Request::PrepareForTx(mdltn_params, tx_pkt_params, output_power, length),
            );
            let setup = preparation(c, mdltn_params.frequency_in_hz) + transmission_setup(job);
            if length <= MAX_PAYLOAD_LENGTH {
                unfolds(
                    started.0,
                    started.1,
                    setup + transmission_framing(job),
                    prepared(c).in_mode(RadioMode::Transmit).finish(Ok(Output::Done)),
                )
            } else {
                unfolds(
                    started.0,
                    started.1,
                    setup,
                    prepared(c).finish(Err(RadioError::PayloadSizeUnexpected(length))),
                )
            }
        }),
{
    let job = TxJob { mdltn_params, tx_pkt_params, output_power, length };
    let operation = Prepared::Tx(job);
    let configuring = configure(prepared(c), operation);
    let framing = frame(prepared(c), job);
    let head = transmission_setup(job);
    assert(unfolds(configuring.0, configuring.1, head, framing)) by {
        reveal_with_fuel(unfolds, 4);
    }
    if length <= MAX_PAYLOAD_LENGTH {
        let tail = transmission_framing(job);
        let outcome = prepared(c).in_mode(RadioMode::Transmit).finish(Ok(Output::Done));
        assert(unfolds(framing.0, framing.1, tail, outcome)) by {
            reveal_with_fuel(unfolds, 5);
        }
        lemma_unfolds_in_parts(configuring.0, configuring.1, head, framing, tail, outcome);
        lemma_prepared_unfolds(c, operation, head + tail, outcome);
        let preparing = preparation(c, mdltn_params.frequency_in_hz);
        assert(preparing + (head + tail) =~= (preparing + head) + tail);
    } else {
        lemma_prepared_unfolds(c, operation, head, framing);
    }
}

/// Rounds of waiting for an interrupt that, once processed, reports nothing.
pub open spec fn idle_rounds(c: State, rounds: nat) -> Seq<(Command, Result<Answer, RadioError>)>
    decreases rounds,
{
    if rounds == 0 {
        Seq::empty()
    } else {
        seq![
            done(Command::AwaitIrq),
            (c.process_irq(false), Ok(Answer::Irq { state: None, cad_activity_detected: false })),
        ] + idle_rounds(c, (rounds - 1) as nat)
    }
}

proof fn lemma_tx_waits(c: State, rounds: nat, last: IrqState)
    requires
        c.stage == Stage::Tx(Execution::Wait),
    ensures
        unfolds(
            c,
            Step::Issue(Command::AwaitIrq),
            idle_rounds(c, rounds) + seq![
                done(Command::AwaitIrq),
                (
                    c.process_irq(false),
                    Ok(Answer::Irq { state: Some(last), cad_activity_detected: false }),
                ),
            ],
            c.in_mode(RadioMode::Standby).finish(Ok(Output::Done)),
        ),
    decreases rounds,
{
    let end = seq![
        done(Command::AwaitIrq),
        (c.process_irq(false), Ok(Answer::Irq { state: Some(last), cad_activity_detected: false })),
    ];
    let outcome = c.in_mode(RadioMode::Standby).finish(Ok(Output::Done));
    if rounds == 0 {
        assert(idle_rounds(c, rounds) + end =~= end);
        reveal_with_fuel(unfolds, 3);
    } else {
        let round = seq![
            done(Command::AwaitIrq),
            (c.process_irq(false), Ok(Answer::Irq { state: None, cad_activity_detected: false })),
        ];
        lemma_tx_waits(c, (rounds - 1) as nat, last);
        assert(unfolds(c, Step::Issue(Command::AwaitIrq), round, (c, Step::Issue(Command::AwaitIrq))))
            by {
            reveal_with_fuel(unfolds, 3);
        }
        lemma_unfolds_in_parts(
            c,
            Step::Issue(Command::AwaitIrq),
            round,
            (c, Step::Issue(Command::AwaitIrq)),
            idle_rounds(c, (rounds - 1) as nat) + end,
            outcome,
        );
        assert(idle_rounds(c, rounds) + end =~= round + (idle_rounds(c, (rounds - 1) as nat) + end));
    }
}

/// A transmission, call by call: start, then wait for an interrupt and
/// process it, round after round, until one reports an event of either
/// kind. The radio is then in standby.
pub proof fn lemma_tx_unfolds(c: State, rounds: nat, last: IrqState)
    requires
        c.radio_mode is Transmit,
    ensures
        unfolds(
            begin(c, Request::Tx).0,
            begin(c, Request::Tx).1,
            seq![done(Command::DoTx)] + (idle_rounds(c, rounds) + seq![
                done(Command::AwaitIrq),
                (
                    c.process_irq(false),
                    Ok(Answer::Irq { state: Some(last), cad_activity_detected: false }),
                ),
            ]),
            c.in_mode(RadioMode::Standby).finish(Ok(Output::Done)),
        ),
{
    let waiting = c.at(Stage::Tx(Execution::Wait));
    lemma_tx_waits(waiting, rounds, last);
    lemma_idle_rounds_ignore_stage(c, waiting, rounds);
    lemma_unfolds_one(
        begin(c, Request::Tx).0,
        done(Command::DoTx),
        idle_rounds(c, rounds) + seq![
            done(Command::AwaitIrq),
            (
                c.process_irq(false),
                Ok(Answer::Irq { state: Some(last), cad_activity_detected: false }),
            ),
        ],
        c.in_mode(RadioMode::Standby).finish(Ok(Output::Done)),
    );
}

proof fn lemma_idle_rounds_ignore_stage(c: State, other: State, rounds: nat)
    requires
        c.radio_mode == other.radio_mode,
    ensures
        idle_rounds(c, rounds) == idle_rounds(other, rounds),
    decreases rounds,
{
    if rounds > 0 {
        lemma_idle_rounds_ignore_stage(c, other, (rounds - 1) as nat);
    }
}

/// The calls that configure a reception once the modem is prepared.
pub open spec fn reception_setup(job: RxJob) -> Seq<(Command, Result<Answer, RadioError>)> {
    seq![
        done(Command::SetModulationParams(job.mdltn_params)),
        done(Command::SetPacketParams(job.rx_pkt_params)),
        done(Command::SetChannel(job.mdltn_params.frequency_in_hz)),
        done(Command::SetIrqParams(Some(RadioMode::Receive(job.listen_mode)))),
    ]
}

/// The preparation of a reception, call by call.
pub proof fn lemma_prepare_for_rx_unfolds(
    c: State,
    listen_mode: RxMode,
    mdltn_params: ModulationParams,
    rx_pkt_params: PacketParams,
)
    ensures
        unfolds(
            begin(c, Request::PrepareForRx(listen_mode, mdltn_params, rx_pkt_params)).0,
            begin(c, Request::PrepareForRx(listen_mode, mdltn_params, rx_pkt_params)).1,
            preparation(c, mdltn_params.frequency_in_hz) + reception_setup(
                RxJob { listen_mode, mdltn_params, rx_pkt_params },
            ),
            prepared(c).in_mode(RadioMode::Receive(listen_mode)).finish(Ok(Output::Done)),
        ),
{
    let job = RxJob { listen_mode, mdltn_params, rx_pkt_params };
    let operation = Prepared::Rx(job);
    let configuring = configure(prepared(c), operation);
    let outcome = prepared(c).in_mode(RadioMode::Receive(listen_mode)).finish(Ok(Output::Done));
    assert(unfolds(configuring.0, configuring.1, reception_setup(job), outcome)) by {
        reveal_with_fuel(unfolds, 5);
    }
    lemma_prepared_unfolds(c, operation, reception_setup(job), outcome);
}

/// A change of frequency, call by call: standby, tune, receive again in the
/// listen mode that was prepared. The modem is not prepared anew.
pub proof fn lemma_rx_switch_channel_unfolds(c: State, frequency_in_hz: u32)
    requires
        c.radio_mode is Receive,
    ensures
        unfolds(
            begin(c, Request::RxSwitchChannel(frequency_in_hz)).0,
            begin(c, Request::RxSwitchChannel(frequency_in_hz)).1,
            seq![
                done(Command::SetStandby),
                done(Command::SetChannel(frequency_in_hz)),
                done(Command::DoRx(c.radio_mode->Receive_0)),
            ],
            c.finish(Ok(Output::Done)),
        ),
{
    reveal_with_fuel(unfolds, 4);
}

/// Rounds of processing an interrupt that does not report the end of the
/// reception, each followed by waiting for the next interrupt.
pub open spec fn pending_rounds(c: State, reports: Seq<Option<IrqState>>) -> Seq<
    (Command, Result<Answer, RadioError>),
>
    decreases reports.len(),
{
    if reports.len() == 0 {
        Seq::empty()
    } else {
        seq![
            (
                c.process_irq(false),
                Ok(Answer::Irq { state: reports[0], cad_activity_detected: false }),
            ),
            done(Command::AwaitIrq),
        ] + pending_rounds(c, reports.drop_first())
    }
}

/// Fetching what was received.
pub open spec fn fetching(
    packet_params: PacketParams,
    received_len: u8,
    rx_pkt_status: PacketStatus,
) -> Seq<(Command, Result<Answer, RadioError>)> {
    seq![
        (Command::GetRxPayload(packet_params), Ok(Answer::PayloadLength(received_len))),
        (Command::GetRxPacketStatus, Ok(Answer::PacketStatus(rx_pkt_status))),
    ]
}

proof fn lemma_complete_rx_waits(
    c: State,
    packet_params: PacketParams,
    reports: Seq<Option<IrqState>>,
    received_len: u8,
    rx_pkt_status: PacketStatus,
)
    requires
        c.stage == Stage::CompleteRx(Completion::Process, packet_params),
        forall|i: int| 0 <= i < reports.len() ==> reports[i] != Some(IrqState::Done),
    ensures
        unfolds(
            c,
            Step::Issue(c.process_irq(false)),
            pending_rounds(c, reports) + (seq![
                (
                    c.process_irq(false),
                    Ok(Answer::Irq { state: Some(IrqState::Done), cad_activity_detected: false }),
                ),
            ] + fetching(packet_params, received_len, rx_pkt_status)),
            c.finish(Ok(Output::Received(received_len, rx_pkt_status))),
        ),
    decreases reports.len(),
{
    let end = seq![
        (
            c.process_irq(false),
            Ok(Answer::Irq { state: Some(IrqState::Done), cad_activity_detected: false }),
        ),
    ] + fetching(packet_params, received_len, rx_pkt_status);
    let outcome = c.finish(Ok(Output::Received(received_len, rx_pkt_status)));
    let here = (c, Step::Issue(c.process_irq(false)));
    if reports.len() == 0 {
        assert(pending_rounds(c, reports) + end =~= end);
        reveal_with_fuel(unfolds, 4);
    } else {
        let round = seq![
            (
                c.process_irq(false),
                Ok(Answer::Irq { state: reports[0], cad_activity_detected: false }),
            ),
            done(Command::AwaitIrq),
        ];
        let rest = reports.drop_first();
        assert forall|i: int| 0 <= i < rest.len() implies rest[i] != Some(IrqState::Done) by {
            assert(rest[i] == reports[i + 1]);
        }
        lemma_complete_rx_waits(c, packet_params, rest, received_len, rx_pkt_status);
        assert(unfolds(here.0, here.1, round, here)) by {
            reveal_with_fuel(unfolds, 3);
            assert(reports[0] != Some(IrqState::Done));
        }
        lemma_unfolds_in_parts(here.0, here.1, round, here, pending_rounds(c, rest) + end, outcome);
        assert(pending_rounds(c, reports) + end =~= round + (pending_rounds(c, rest) + end));
    }
}

proof fn lemma_pending_rounds_ignore_stage(
    c: State,
    other: State,
    reports: Seq<Option<IrqState>>,
)
    requires
        c.radio_mode == other.radio_mode,
    ensures
        pending_rounds(c, reports) == pending_rounds(other, reports),
    decreases reports.len(),
{
    if reports.len() > 0 {
        lemma_pending_rounds_ignore_stage(c, other, reports.drop_first());
    }
}

/// The completion of a reception, call by call: process the interrupt,
/// and while it does not report the end of the reception wait for the next
/// one; then fetch the payload and the signal quality. What the radio
/// returned is the result, and the mode stays as it is.
pub proof fn lemma_complete_rx_unfolds(
    c: State,
    packet_params: PacketParams,
    reports: Seq<Option<IrqState>>,
    received_len: u8,
    rx_pkt_status: PacketStatus,
)
    requires
        c.radio_mode is Receive,
        forall|i: int| 0 <= i < reports.len() ==> reports[i] != Some(IrqState::Done),
    ensures
        unfolds(
            begin(c, Request::CompleteRx(packet_params)).0,
            begin(c, Request::CompleteRx(packet_params)).1,
            pending_rounds(c, reports) + (seq![
                (
                    c.process_irq(false),
                    Ok(Answer::Irq { state: Some(IrqState::Done), cad_activity_detected: false }),
                ),
            ] + fetching(packet_params, received_len, rx_pkt_status)),
            c.finish(Ok(Output::Received(received_len, rx_pkt_status))),
        ),
{
    let started = begin(c, Request::CompleteRx(packet_params));
    lemma_complete_rx_waits(started.0, packet_params, reports, received_len, rx_pkt_status);
    lemma_pending_rounds_ignore_stage(c, started.0, reports);
}

/// The calls that start a signal-strength measurement once the modem is
/// prepared. The modulation that is programmed is the one that the radio
/// encoded for spreading factor 7, coding rate 4/5 and the given bandwidth.
pub open spec fn listening_setup(job: ListenJob, encoded: ModulationParams) -> Seq<
    (Command, Result<Answer, RadioError>),
> {
    seq![
        done(Command::SetChannel(job.frequency_in_hz)),
        (listening_modulation(job), Ok(Answer::ModulationParams(encoded))),
        done(Command::SetModulationParams(encoded)),
        done(Command::DoRx(RxMode::Continuous)),
    ]
}

/// The start of a signal-strength measurement, call by call.
pub proof fn lemma_listen_unfolds(
    c: State,
    frequency_in_hz: u32,
    bandwidth: Bandwidth,
    encoded: ModulationParams,
)
    ensures
        unfolds(
            begin(c, Request::Listen(frequency_in_hz, bandwidth)).0,
            begin(c, Request::Listen(frequency_in_hz, bandwidth)).1,
            preparation(c, frequency_in_hz) + listening_setup(
                ListenJob { frequency_in_hz, bandwidth },
                encoded,
            ),
            prepared(c).in_mode(RadioMode::Listen).finish(Ok(Output::Done)),
        ),
{
    let job = ListenJob { frequency_in_hz, bandwidth };
    let operation = Prepared::Listen(job);
    let configuring = configure(prepared(c), operation);
    let outcome = prepared(c).in_mode(RadioMode::Listen).finish(Ok(Output::Done));
    assert(unfolds(configuring.0, configuring.1, listening_setup(job, encoded), outcome)) by {
        reveal_with_fuel(unfolds, 5);
    }
    lemma_prepared_unfolds(c, operation, listening_setup(job, encoded), outcome);
}

/// The calls that configure a channel activity detection once the modem is
/// prepared.
pub open spec fn detection_setup(mdltn_params: ModulationParams) -> Seq<
    (Command, Result<Answer, RadioError>),
> {
    seq![
        done(Command::SetModulationParams(mdltn_params)),
        done(Command::SetChannel(mdltn_params.frequency_in_hz)),
        done(Command::SetIrqParams(Some(RadioMode::ChannelActivityDetection))),
    ]
}

/// The preparation of a channel activity detection, call by call.
pub proof fn lemma_prepare_for_cad_unfolds(c: State, mdltn_params: ModulationParams)
    ensures
        unfolds(
            begin(c, Request::PrepareForCad(mdltn_params)).0,
            begin(c, Request::PrepareForCad(mdltn_params)).1,
            preparation(c, mdltn_params.frequency_in_hz) + detection_setup(mdltn_params),
            prepared(c).in_mode(RadioMode::ChannelActivityDetection).finish(Ok(Output::Done)),
        ),
{
    let operation = Prepared::Cad(mdltn_params);
    let configuring = configure(prepared(c), operation);
    let outcome = prepared(c).in_mode(RadioMode::ChannelActivityDetection).finish(
        Ok(Output::Done),
    );
    assert(unfolds(configuring.0, configuring.1, detection_setup(mdltn_params), outcome)) by {
        reveal_with_fuel(unfolds, 4);
    }
    lemma_prepared_unfolds(c, operation, detection_setup(mdltn_params), outcome);
}

/// A channel activity detection, call by call: start, wait for one
/// interrupt, process it. The result is what the radio reported, and the
/// radio is then in standby.
pub proof fn lemma_cad_unfolds(
    c: State,
    mdltn_params: ModulationParams,
    cad_activity_detected: bool,
)
    requires
        c.radio_mode is ChannelActivityDetection,
    ensures
        unfolds(
            begin(c, Request::Cad(mdltn_params)).0,
            begin(c, Request::Cad(mdltn_params)).1,
            seq![
                done(Command::DoCad(mdltn_params)),
                done(Command::AwaitIrq),
                (
                    c.process_irq(true),
                    Ok(Answer::Irq { state: Some(IrqState::Done), cad_activity_detected }),
                ),
            ],
            c.in_mode(RadioMode::Standby).finish(
                Ok(Output::ActivityDetected(cad_activity_detected)),
            ),
        ),
{
    reveal_with_fuel(unfolds, 4);
}

/// The calls that start an unmodulated carrier once the modem is prepared.
/// The packet framing that is programmed is the one that the radio encoded
/// for a packet that is never sent.
pub open spec fn carrier_setup(job: WaveJob, encoded: PacketParams) -> Seq<
    (Command, Result<Answer, RadioError>),
> {
    seq![
        (carrier_framing(job.mdltn_params), Ok(Answer::PacketParams(encoded))),
        done(Command::SetPacketParams(encoded)),
        done(Command::SetModulationParams(job.mdltn_params)),
        done(transmit_power(job.output_power, job.mdltn_params)),
        done(Command::EnsureReady(RadioMode::Standby)),
        done(Command::SetChannel(job.mdltn_params.frequency_in_hz)),
        done(Command::SetIrqParams(Some(RadioMode::Transmit))),
        done(Command::SetTxContinuousWaveMode),
    ]
}

/// The start of an unmodulated carrier, call by call.
pub proof fn lemma_continuous_wave_unfolds(
    c: State,
    mdltn_params: ModulationParams,
    output_power: i32,
    encoded: PacketParams,
)
    ensures
        unfolds(
            begin(c, Request::ContinuousWave(mdltn_params, output_power)).0,
            begin(c, Request::ContinuousWave(mdltn_params, output_power)).1,
            preparation(c, mdltn_params.frequency_in_hz) + carrier_setup(
                WaveJob { mdltn_params, output_power },
                encoded,
            ),
            prepared(c).in_mode(RadioMode::Transmit).finish(Ok(Output::Done)),
        ),
{
    let job = WaveJob { mdltn_params, output_power };
    let operation = Prepared::Wave(job);
    let configuring = configure(prepared(c), operation);
    let outcome = prepared(c).in_mode(RadioMode::Transmit).finish(Ok(Output::Done));
    assert(unfolds(configuring.0, configuring.1, carrier_setup(job, encoded), outcome)) by {
        reveal_with_fuel(unfolds, 9);
    }
    lemma_prepared_unfolds(c, operation, carrier_setup(job, encoded), outcome);
}

/// Entering standby, call by call. The mode follows the radio: it is standby
/// once the radio has obeyed.
pub proof fn lemma_enter_standby_unfolds(c: State)
    ensures
        unfolds(
            begin(c, Request::EnterStandby).0,
            begin(c, Request::EnterStandby).1,
            seq![done(Command::SetStandby)],
            c.in_mode(RadioMode::Standby).finish(Ok(Output::Done)),
        ),
{
    reveal_with_fuel(unfolds, 2);
}

/// Fetching what was received, call by call, for callers that have watched
/// the interrupts themselves.
pub proof fn lemma_get_rx_result_unfolds(
    c: State,
    packet_params: PacketParams,
    received_len: u8,
    rx_pkt_status: PacketStatus,
)
    requires
        c.radio_mode is Receive,
    ensures
        unfolds(
            begin(c, Request::GetRxResult(packet_params)).0,
            begin(c, Request::GetRxResult(packet_params)).1,
            fetching(packet_params, received_len, rx_pkt_status),
            c.finish(Ok(Output::Received(received_len, rx_pkt_status))),
        ),
{
    reveal_with_fuel(unfolds, 3);
}

/// Starting a reception and waiting for it to end is starting it and then
/// completing it.
pub proof fn lemma_rx_unfolds(
    c: State,
    packet_params: PacketParams,
    completion: Seq<(Command, Result<Answer, RadioError>)>,
    outcome: (State, Step),
)
    requires
        c.radio_mode is Receive,
        unfolds(
            begin(c, Request::CompleteRx(packet_params)).0,
            begin(c, Request::CompleteRx(packet_params)).1,
            completion,
            outcome,
        ),
    ensures
        unfolds(
            begin(c, Request::StartRx).0,
            begin(c, Request::StartRx).1,
            seq![done(Command::DoRx(c.radio_mode->Receive_0))],
            c.finish(Ok(Output::Done)),
        ),
        unfolds(
            begin(c, Request::Rx(packet_params)).0,
            begin(c, Request::Rx(packet_params)).1,
            seq![done(Command::DoRx(c.radio_mode->Receive_0))] + completion,
            outcome,
        ),
{
    let start = seq![done(Command::DoRx(c.radio_mode->Receive_0))];
    assert(unfolds(begin(c, Request::StartRx).0, begin(c, Request::StartRx).1, start, c.finish(
        Ok(Output::Done),
    ))) by {
        reveal_with_fuel(unfolds, 2);
    }
    let started = begin(c, Request::Rx(packet_params));
    let completing = begin(c, Request::CompleteRx(packet_params));
    assert(resume(started.0, Ok(Answer::Done)) == completing);
    lemma_unfolds_one(started.0, done(Command::DoRx(c.radio_mode->Receive_0)), completion, outcome);
}

} // verus!
