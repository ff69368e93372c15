//! The controller as a mathematical state machine.
//!
//! [`begin`] says how a request starts an operation and [`resume`] how the
//! operation goes on once the radio has answered. The executable controller
//! is proved to compute exactly these two functions.

use vstd::prelude::*;
use crate::command::{Answer, AnswerKind, Command, Output, Step};
use crate::mod_params::{
    Bandwidth, CodingRate, IrqState, ModulationParams, PacketParams, RadioError, RadioMode, RxMode,
    SpreadingFactor, MAX_PAYLOAD_LENGTH,
};
use crate::stage::{
    CadSetup, ColdStart, Completion, Execution, InitStage, ListenJob, ListenSetup, Modem, Prepared,
    Recovery, Retune, RxJob, RxSetup, SleepStage, Stage, TxJob, TxSetup, WaveJob, WaveSetup,
};

verus! {

/// Everything the controller knows.
#[derive(Clone, Copy, Debug, PartialEq, Eq, Structural)]
pub struct State {
    /// The mode the radio was last put in.
    pub radio_mode: RadioMode,
    /// The sync word programmed by every cold start.
    pub sync_word: u8,
    /// Whether the radio may have lost its configuration.
    pub cold_start: bool,
    /// Whether the image is still to be calibrated since the last cold start.
    pub calibrate_image: bool,
    /// Where the operation under way stands.
    pub stage: Stage,
}

/// An operation asked of the controller, with its arguments.
#[derive(Clone, Copy, Debug, PartialEq, Eq, Structural)]
pub enum Request {
    Init,
    EnterStandby,
    /// Whether to keep the configuration if the radio can.
    Sleep(bool),
    WaitForIrq,
    ProcessIrqEvent,
    CreateModulationParams(SpreadingFactor, Bandwidth, CodingRate, u32),
    /// Preamble length, implicit header, CRC, inverted I/Q, modulation.
    CreateTxPacketParams(u16, bool, bool, bool, ModulationParams),
    /// Preamble length, implicit header, longest payload, CRC, inverted I/Q, modulation.
    CreateRxPacketParams(u16, bool, u8, bool, bool, ModulationParams),
    /// Modulation, packet framing, output power, payload length.
    PrepareForTx(ModulationParams, PacketParams, i32, usize),
    Tx,
    PrepareForRx(RxMode, ModulationParams, PacketParams),
    /// The frequency to move to, in Hz.
    RxSwitchChannel(u32),
    StartRx,
    CompleteRx(PacketParams),
    GetIrqState,
    ClearIrqStatus,
    GetRxResult(PacketParams),
    Rx(PacketParams),
    /// Frequency in Hz, bandwidth.
    Listen(u32, Bandwidth),
    GetRssi,
    PrepareForCad(ModulationParams),
    Cad(ModulationParams),
    /// Modulation, output power.
    ContinuousWave(ModulationParams, i32),
}

impl State {
    /// A controller that has never talked to its radio.
    pub open spec fn fresh(sync_word: u8) -> State {
        State {
            radio_mode: RadioMode::Sleep,
            sync_word,
            cold_start: true,
            calibrate_image: true,
            stage: Stage::Idle,
        }
    }

    /// This state at another stage.
    pub open spec fn at(self, stage: Stage) -> State {
        State { stage, ..self }
    }

    /// This state with the radio in another mode.
    pub open spec fn in_mode(self, radio_mode: RadioMode) -> State {
        State { radio_mode, ..self }
    }

    /// This state once a cold start has run to its end.
    pub open spec fn cold_started(self) -> State {
        State { cold_start: false, calibrate_image: true, ..self }
    }

    /// The operation goes on with `command`, whose answer is awaited at `stage`.
    pub open spec fn issue(self, stage: Stage, command: Command) -> (State, Step) {
        (self.at(stage), Step::Issue(command))
    }

    /// The operation ends with `result`.
    pub open spec fn finish(self, result: Result<Output, RadioError>) -> (State, Step) {
        (self.at(Stage::Idle), Step::Finish(result))
    }

    /// The operation is refused because the radio is in the wrong mode.
    pub open spec fn refuse(self) -> (State, Step) {
        self.finish(Err(RadioError::InvalidRadioMode))
    }

    /// The interrupt check of a running operation.
    pub open spec fn process_irq(self, cad_activity: bool) -> Command {
        Command::ProcessIrqEvent { radio_mode: self.radio_mode, cad_activity, is_blocking: true }
    }
}

/// The sync word of public LoRaWAN networks.
pub const LORAWAN_PUBLIC_SYNCWORD: u8 = 0x34;

/// The sync word of private LoRaWAN networks.
pub const LORAWAN_PRIVATE_SYNCWORD: u8 = 0x12;

/// The sync word of a LoRaWAN network of the given kind.
pub open spec fn lorawan_sync_word(enable_public_network: bool) -> u8 {
    if enable_public_network {
        LORAWAN_PUBLIC_SYNCWORD
    } else {
        LORAWAN_PRIVATE_SYNCWORD
    }
}

/// How the controller, at rest in state `c`, starts on `request`.
///
/// Transmission, reception and channel activity detection are refused outside
/// the mode that their preparation establishes, before any call is made.
pub open spec fn begin(c: State, request: Request) -> (State, Step) {
    match request {
        Request::Init => State { cold_start: true, ..c }.issue(
            Stage::Init(InitStage::Reset),
            Command::Reset,
        ),
        Request::EnterStandby => c.issue(Stage::EnterStandby, Command::SetStandby),
        Request::Sleep(warm_start_if_possible) => if c.radio_mode is Sleep {
            c.finish(Ok(Output::Done))
        } else {
            c.issue(
                Stage::Sleep(SleepStage::Ready, warm_start_if_possible),
                Command::EnsureReady(c.radio_mode),
            )
        },
        Request::WaitForIrq => c.issue(Stage::WaitForIrq, Command::AwaitIrq),
        Request::ProcessIrqEvent => c.issue(
            Stage::ProcessIrqEvent,
            Command::ProcessIrqEvent {
                radio_mode: c.radio_mode,
                cad_activity: false,
                is_blocking: false,
            },
        ),
        Request::CreateModulationParams(
            spreading_factor,
            bandwidth,
            coding_rate,
            frequency_in_hz,
        ) => c.issue(
            Stage::CreateModulationParams,
            Command::CreateModulationParams {
                spreading_factor,
                bandwidth,
                coding_rate,
                frequency_in_hz,
            },
        ),
        Request::CreateTxPacketParams(
            preamble_length,
            implicit_header,
            crc_on,
            iq_inverted,
            modulation_params,
        ) => c.issue(
            Stage::CreatePacketParams,
            Command::CreatePacketParams {
                preamble_length,
                implicit_header,
                payload_length: 0,
                crc_on,
                iq_inverted,
                modulation_params,
            },
        ),
        Request::CreateRxPacketParams(
            preamble_length,
            implicit_header,
            max_payload_length,
            crc_on,
            iq_inverted,
            modulation_params,
        ) => c.issue(
            Stage::CreatePacketParams,
            Command::CreatePacketParams {
                preamble_length,
                implicit_header,
                payload_length: max_payload_length,
                crc_on,
                iq_inverted,
                modulation_params,
            },
        ),
        Request::PrepareForTx(mdltn_params, tx_pkt_params, output_power, length) => prepare(
            c,
            Prepared::Tx(TxJob { mdltn_params, tx_pkt_params, output_power, length }),
        ),
        Request::Tx => if c.radio_mode is Transmit {
            c.issue(Stage::Tx(Execution::Start), Command::DoTx)
        } else {
            c.refuse()
        },
        Request::PrepareForRx(listen_mode, mdltn_params, rx_pkt_params) => prepare(
            c,
            Prepared::Rx(RxJob { listen_mode, mdltn_params, rx_pkt_params }),
        ),
        Request::RxSwitchChannel(frequency_in_hz) => match c.radio_mode {
            RadioMode::Receive(listen_mode) => c.issue(
                Stage::RxSwitchChannel(Retune::Standby, frequency_in_hz, listen_mode),
                Command::SetStandby,
            ),
            _ => c.refuse(),
        },
        Request::StartRx => match c.radio_mode {
            RadioMode::Receive(listen_mode) => c.issue(Stage::StartRx, Command::DoRx(listen_mode)),
            _ => c.refuse(),
        },
        Request::CompleteRx(packet_params) => complete_rx(c, packet_params),
        Request::GetIrqState => c.issue(
            Stage::GetIrqState,
            Command::GetIrqState { radio_mode: c.radio_mode, cad_activity: false },
        ),
        Request::ClearIrqStatus => c.issue(Stage::ClearIrqStatus, Command::ClearIrqStatus),
        Request::GetRxResult(packet_params) => if c.radio_mode is Receive {
            c.issue(
                Stage::CompleteRx(Completion::Payload, packet_params),
                Command::GetRxPayload(packet_params),
            )
        } else {
            c.refuse()
        },
        Request::Rx(packet_params) => match c.radio_mode {
            RadioMode::Receive(listen_mode) => c.issue(
                Stage::Rx(packet_params),
                Command::DoRx(listen_mode),
            ),
            _ => c.refuse(),
        },
        Request::Listen(frequency_in_hz, bandwidth) => prepare(
            c,
            Prepared::Listen(ListenJob { frequency_in_hz, bandwidth }),
        ),
        Request::GetRssi => c.issue(Stage::GetRssi, Command::GetRssi),
        Request::PrepareForCad(mdltn_params) => prepare(c, Prepared::Cad(mdltn_params)),
        Request::Cad(mdltn_params) => if c.radio_mode is ChannelActivityDetection {
            c.issue(Stage::Cad(Execution::Start), Command::DoCad(mdltn_params))
        } else {
            c.refuse()
        },
        Request::ContinuousWave(mdltn_params, output_power) => prepare(
            c,
            Prepared::Wave(WaveJob { mdltn_params, output_power }),
        ),
    }
}

/// The first call of waiting for a reception to end.
pub open spec fn complete_rx(c: State, packet_params: PacketParams) -> (State, Step) {
    if c.radio_mode is Receive {
        c.issue(Stage::CompleteRx(Completion::Process, packet_params), c.process_irq(false))
    } else {
        c.refuse()
    }
}

/// The first call of the preparation shared by all channel-using operations.
pub open spec fn prepare(c: State, operation: Prepared) -> (State, Step) {
    c.issue(Stage::Modem(Modem::Ready, operation), Command::EnsureReady(c.radio_mode))
}

/// The shared preparation once the radio is in standby: a cold start if one
/// is owed, else on to the image calibration.
pub open spec fn warm_up(c: State, operation: Prepared) -> (State, Step) {
    if c.cold_start {
        c.issue(
            Stage::Modem(Modem::Cold(ColdStart::InitLora), operation),
            Command::InitLora(c.sync_word),
        )
    } else {
        calibrate(c, operation)
    }
}

/// The shared preparation once the radio is initialised: an image
/// calibration for the frequency about to be used if one is owed, else on to
/// the operation's own configuration.
pub open spec fn calibrate(c: State, operation: Prepared) -> (State, Step) {
    if c.calibrate_image {
        c.issue(
            Stage::Modem(Modem::Calibrate, operation),
            Command::CalibrateImage(operation.spec_frequency()),
        )
    } else {
        configure(c, operation)
    }
}

/// The packet framing that a carrier test programs: sixteen bytes with an
/// implicit header, no CRC and I/Q as it is. It is never sent.
pub open spec fn carrier_framing(mdltn_params: ModulationParams) -> Command {
    Command::CreatePacketParams {
        preamble_length: 0,
        implicit_header: true,
        payload_length: 16,
        crc_on: false,
        iq_inverted: false,
        modulation_params: mdltn_params,
    }
}

/// The modulation that a signal-strength measurement programs: only its
/// bandwidth matters.
pub open spec fn listening_modulation(job: ListenJob) -> Command {
    Command::CreateModulationParams {
        spreading_factor: SpreadingFactor::_7,
        bandwidth: job.bandwidth,
        coding_rate: CodingRate::_4_5,
        frequency_in_hz: job.frequency_in_hz,
    }
}

/// Output power and ramp time of an operation that is about to transmit.
pub open spec fn transmit_power(output_power: i32, mdltn_params: ModulationParams) -> Command {
    Command::SetTxPowerAndRampTime {
        output_power,
        mdltn_params: Some(mdltn_params),
        is_tx: true,
    }
}

/// The first call of an operation's own configuration, once the modem is
/// prepared.
pub open spec fn configure(c: State, operation: Prepared) -> (State, Step) {
    match operation {
        Prepared::Tx(job) => c.issue(
            Stage::PrepareForTx(TxSetup::Modulation, job),
            Command::SetModulationParams(job.mdltn_params),
        ),
        Prepared::Rx(job) => c.issue(
            Stage::PrepareForRx(RxSetup::Modulation, job),
            Command::SetModulationParams(job.mdltn_params),
        ),
        Prepared::Listen(job) => c.issue(
            Stage::Listen(ListenSetup::Channel, job),
            Command::SetChannel(job.frequency_in_hz),
        ),
        Prepared::Cad(mdltn_params) => c.issue(
            Stage::PrepareForCad(CadSetup::Modulation, mdltn_params),
            Command::SetModulationParams(mdltn_params),
        ),
        Prepared::Wave(job) => c.issue(
            Stage::ContinuousWave(WaveSetup::Create, job),
            carrier_framing(job.mdltn_params),
        ),
    }
}

/// The call that follows `at` in a cold start, with the stage at which its
/// answer is awaited; `None` after the last one.
pub open spec fn cold_start_next(c: State, at: ColdStart) -> Option<(ColdStart, Command)> {
    match at {
        ColdStart::InitLora => Some(
            (
                ColdStart::TxPower,
                Command::SetTxPowerAndRampTime {
                    output_power: 0,
                    mdltn_params: None,
                    is_tx: false,
                },
            ),
        ),
        ColdStart::TxPower => Some(
            (ColdStart::IrqParams, Command::SetIrqParams(Some(c.radio_mode))),
        ),
        ColdStart::IrqParams => None,
    }
}

/// The payload length is recorded in the packet framing, which is then
/// programmed; a payload too long for that ends the preparation.
pub open spec fn frame(c: State, job: TxJob) -> (State, Step) {
    if job.length > MAX_PAYLOAD_LENGTH {
        c.finish(Err(RadioError::PayloadSizeUnexpected(job.length)))
    } else {
        let framed = job.tx_pkt_params.with_payload_length(job.length as u8);
        c.issue(
            Stage::PrepareForTx(TxSetup::Packet, TxJob { tx_pkt_params: framed, ..job }),
            Command::SetPacketParams(framed),
        )
    }
}

/// The shape of the answer that is awaited at `stage`.
pub open spec fn expects(stage: Stage) -> AnswerKind {
    match stage {
        Stage::ProcessIrqEvent
        | Stage::GetIrqState
        | Stage::Tx(Execution::Process)
        | Stage::Cad(Execution::Process)
        | Stage::CompleteRx(Completion::Process, _) => AnswerKind::Irq,
        Stage::CreateModulationParams
        | Stage::Listen(ListenSetup::Create, _) => AnswerKind::ModulationParams,
        Stage::CreatePacketParams
        | Stage::ContinuousWave(WaveSetup::Create, _) => AnswerKind::PacketParams,
        Stage::CompleteRx(Completion::Payload, _) => AnswerKind::PayloadLength,
        Stage::CompleteRx(Completion::Status(_), _) => AnswerKind::PacketStatus,
        Stage::GetRssi => AnswerKind::Rssi,
        _ => AnswerKind::Done,
    }
}

/// Whether `reply` can be what the radio returned from the call that the
/// controller is waiting on.
///
/// A failure always can. A success must have the shape that the call yields,
/// and the interrupt that ends a channel activity detection must report the
/// detection as done: a radio never reports anything else there.
pub open spec fn admits(c: State, reply: Result<Answer, RadioError>) -> bool {
    &&& !(c.stage is Idle)
    &&& reply matches Ok(answer) ==> {
        &&& answer.spec_kind() == expects(c.stage)
        &&& c.stage == Stage::Cad(Execution::Process) ==> answer matches Answer::Irq {
            state: Some(IrqState::Done),
            ..
        }
    }
}

/// How the operation under way goes on after `reply`.
///
/// Meaningful where [`admits`] holds.
pub open spec fn resume(c: State, reply: Result<Answer, RadioError>) -> (State, Step) {
    match reply {
        Err(cause) => fail(c, cause),
        Ok(answer) => proceed(c, answer),
    }
}

/// How the operation under way goes on after a failed call.
///
/// The failure ends the operation and is its result, with one exception: when
/// the interrupt of a running transmission, reception or channel activity
/// detection could not be processed, the radio is first brought back to
/// standby. A continuous reception is exempt from that, so that its caller
/// may choose to go on receiving.
pub open spec fn fail(c: State, cause: RadioError) -> (State, Step) {
    if recovers(c) {
        c.issue(Stage::Recover(Recovery::Ready, cause), Command::EnsureReady(c.radio_mode))
    } else {
        c.finish(Err(cause))
    }
}

/// Whether a failure at this point is followed by a return to standby.
pub open spec fn recovers(c: State) -> bool {
    match c.stage {
        Stage::Tx(Execution::Process) | Stage::Cad(Execution::Process) => true,
        Stage::CompleteRx(Completion::Process, _) => c.radio_mode != RadioMode::Receive(
            RxMode::Continuous,
        ),
        _ => false,
    }
}

/// What an operation that consists of a single call yields for the call's
/// answer.
pub open spec fn hand_back(answer: Answer) -> Output {
    match answer {
        Answer::ModulationParams(mdltn_params) => Output::ModulationParams(mdltn_params),
        Answer::PacketParams(pkt_params) => Output::PacketParams(pkt_params),
        Answer::Irq { state, .. } => Output::Irq(state),
        Answer::Rssi(rssi) => Output::Rssi(rssi),
        _ => Output::Done,
    }
}

/// How the operation under way goes on after a successful call.
pub open spec fn proceed(c: State, answer: Answer) -> (State, Step) {
    match c.stage {
        Stage::Idle => stray(c),
        Stage::WaitForIrq
        | Stage::ProcessIrqEvent
        | Stage::CreateModulationParams
        | Stage::CreatePacketParams
        | Stage::StartRx
        | Stage::GetIrqState
        | Stage::ClearIrqStatus
        | Stage::GetRssi => c.finish(Ok(hand_back(answer))),
        Stage::EnterStandby => c.in_mode(RadioMode::Standby).finish(Ok(Output::Done)),
        Stage::Init(at) => proceed_init(c, at),
        Stage::Sleep(at, warm_start_if_possible) => proceed_sleep(c, at, warm_start_if_possible),
        Stage::Modem(at, operation) => proceed_modem(c, at, operation),
        Stage::PrepareForTx(at, job) => proceed_prepare_for_tx(c, at, job),
        Stage::Tx(at) => proceed_tx(c, at, answer),
        Stage::PrepareForRx(at, job) => proceed_prepare_for_rx(c, at, job),
        Stage::RxSwitchChannel(at, frequency_in_hz, listen_mode) => proceed_rx_switch_channel(
            c,
            at,
            frequency_in_hz,
            listen_mode,
        ),
        Stage::Rx(packet_params) => complete_rx(c, packet_params),
        Stage::CompleteRx(at, packet_params) => proceed_complete_rx(c, at, packet_params, answer),
        Stage::Listen(at, job) => proceed_listen(c, at, job, answer),
        Stage::PrepareForCad(at, mdltn_params) => proceed_prepare_for_cad(c, at, mdltn_params),
        Stage::Cad(at) => proceed_cad(c, at, answer),
        Stage::ContinuousWave(at, job) => proceed_continuous_wave(c, at, job, answer),
        Stage::Recover(at, cause) => proceed_recover(c, at, cause),
    }
}

/// What the model says of an answer that [`admits`] rules out: nothing of use.
pub open spec fn stray(c: State) -> (State, Step) {
    (c, Step::Finish(Err(RadioError::InvalidRadioMode)))
}

/// An initialisation after a successful call: reset, wait until ready, force
/// standby, then the cold start.
pub open spec fn proceed_init(c: State, at: InitStage) -> (State, Step) {
    match at {
        InitStage::Reset => c.issue(
            Stage::Init(InitStage::Ready),
            Command::EnsureReady(c.radio_mode),
        ),
        InitStage::Ready => c.issue(Stage::Init(InitStage::Standby), Command::SetStandby),
        InitStage::Standby => c.in_mode(RadioMode::Standby).issue(
            Stage::Init(InitStage::Cold(ColdStart::InitLora)),
            Command::InitLora(c.sync_word),
        ),
        InitStage::Cold(cold) => match cold_start_next(c, cold) {
            Some((next, command)) => c.issue(Stage::Init(InitStage::Cold(next)), command),
            None => c.cold_started().finish(Ok(Output::Done)),
        },
    }
}

/// A transition to sleep after a successful call. Unless a warm start was
/// asked for, the sleeping radio is taken to have lost its configuration.
pub open spec fn proceed_sleep(c: State, at: SleepStage, warm_start_if_possible: bool) -> (
    State,
    Step,
) {
    match at {
        SleepStage::Ready => c.issue(
            Stage::Sleep(SleepStage::Sleep, warm_start_if_possible),
            Command::SetSleep(warm_start_if_possible),
        ),
        SleepStage::Sleep => State {
            radio_mode: RadioMode::Sleep,
            cold_start: c.cold_start || !warm_start_if_possible,
            ..c
        }.finish(Ok(Output::Done)),
    }
}

/// The shared preparation after a successful call: wait until ready, force
/// standby unless already there, cold start if owed, calibrate if owed.
pub open spec fn proceed_modem(c: State, at: Modem, operation: Prepared) -> (State, Step) {
    match at {
        Modem::Ready => if c.radio_mode != RadioMode::Standby {
            c.issue(Stage::Modem(Modem::Standby, operation), Command::SetStandby)
        } else {
            warm_up(c, operation)
        },
        Modem::Standby => warm_up(c.in_mode(RadioMode::Standby), operation),
        Modem::Cold(cold) => match cold_start_next(c, cold) {
            Some((next, command)) => c.issue(Stage::Modem(Modem::Cold(next), operation), command),
            None => calibrate(c.cold_started(), operation),
        },
        Modem::Calibrate => configure(State { calibrate_image: false, ..c }, operation),
    }
}

/// The configuration of a transmission after a successful call.
pub open spec fn proceed_prepare_for_tx(c: State, at: TxSetup, job: TxJob) -> (State, Step) {
    match at {
        TxSetup::Modulation => c.issue(
            Stage::PrepareForTx(TxSetup::Power, job),
            transmit_power(job.output_power, job.mdltn_params),
        ),
        TxSetup::Power => c.issue(
            Stage::PrepareForTx(TxSetup::Ready, job),
            Command::EnsureReady(c.radio_mode),
        ),
        TxSetup::Ready => if c.radio_mode != RadioMode::Standby {
            c.issue(Stage::PrepareForTx(TxSetup::Standby, job), Command::SetStandby)
        } else {
            frame(c, job)
        },
        TxSetup::Standby => frame(c.in_mode(RadioMode::Standby), job),
        TxSetup::Packet => c.issue(
            Stage::PrepareForTx(TxSetup::Channel, job),
            Command::SetChannel(job.mdltn_params.frequency_in_hz),
        ),
        TxSetup::Channel => c.issue(Stage::PrepareForTx(TxSetup::Payload, job), Command::SetPayload),
        TxSetup::Payload => c.in_mode(RadioMode::Transmit).issue(
            Stage::PrepareForTx(TxSetup::Irq, job),
            Command::SetIrqParams(Some(RadioMode::Transmit)),
        ),
        TxSetup::Irq => c.finish(Ok(Output::Done)),
    }
}

/// A transmission after a successful call: start, then wait for an interrupt
/// and process it, again and again until one reports an event; then the radio
/// is back in standby.
pub open spec fn proceed_tx(c: State, at: Execution, answer: Answer) -> (State, Step) {
    match at {
        Execution::Start => c.issue(Stage::Tx(Execution::Wait), Command::AwaitIrq),
        Execution::Wait => c.issue(Stage::Tx(Execution::Process), c.process_irq(false)),
        Execution::Process => match answer {
            Answer::Irq { state: Some(_), .. } => c.in_mode(RadioMode::Standby).finish(
                Ok(Output::Done),
            ),
            Answer::Irq { state: None, .. } => c.issue(
                Stage::Tx(Execution::Wait),
                Command::AwaitIrq,
            ),
            _ => stray(c),
        },
    }
}

/// The configuration of a reception after a successful call.
pub open spec fn proceed_prepare_for_rx(c: State, at: RxSetup, job: RxJob) -> (State, Step) {
    match at {
        RxSetup::Modulation => c.issue(
            Stage::PrepareForRx(RxSetup::Packet, job),
            Command::SetPacketParams(job.rx_pkt_params),
        ),
        RxSetup::Packet => c.issue(
            Stage::PrepareForRx(RxSetup::Channel, job),
            Command::SetChannel(job.mdltn_params.frequency_in_hz),
        ),
        RxSetup::Channel => c.in_mode(RadioMode::Receive(job.listen_mode)).issue(
            Stage::PrepareForRx(RxSetup::Irq, job),
            Command::SetIrqParams(Some(RadioMode::Receive(job.listen_mode))),
        ),
        RxSetup::Irq => c.finish(Ok(Output::Done)),
    }
}

/// A change of frequency after a successful call: standby, tune, receive
/// again.
pub open spec fn proceed_rx_switch_channel(
    c: State,
    at: Retune,
    frequency_in_hz: u32,
    listen_mode: RxMode,
) -> (State, Step) {
    match at {
        Retune::Standby => c.issue(
            Stage::RxSwitchChannel(Retune::Channel, frequency_in_hz, listen_mode),
            Command::SetChannel(frequency_in_hz),
        ),
        Retune::Channel => c.issue(
            Stage::RxSwitchChannel(Retune::Rx, frequency_in_hz, listen_mode),
            Command::DoRx(listen_mode),
        ),
        Retune::Rx => c.finish(Ok(Output::Done)),
    }
}

/// The completion of a reception after a successful call.
///
/// A processed interrupt that reports the reception as done is followed by
/// fetching the payload and the signal quality, and the mode stays as it is;
/// any other is followed by waiting for the next interrupt.
pub open spec fn proceed_complete_rx(
    c: State,
    at: Completion,
    packet_params: PacketParams,
    answer: Answer,
) -> (State, Step) {
    match at {
        Completion::Process => match answer {
            Answer::Irq { state: Some(IrqState::Done), .. } => c.issue(
                Stage::CompleteRx(Completion::Payload, packet_params),
                Command::GetRxPayload(packet_params),
            ),
            Answer::Irq { .. } => c.issue(
                Stage::CompleteRx(Completion::Wait, packet_params),
                Command::AwaitIrq,
            ),
            _ => stray(c),
        },
        Completion::Wait => c.issue(
            Stage::CompleteRx(Completion::Process, packet_params),
            c.process_irq(false),
        ),
        Completion::Payload => match answer {
            Answer::PayloadLength(received_len) => c.issue(
                Stage::CompleteRx(Completion::Status(received_len), packet_params),
                Command::GetRxPacketStatus,
            ),
            _ => stray(c),
        },
        Completion::Status(received_len) => match answer {
            Answer::PacketStatus(rx_pkt_status) => c.finish(
                Ok(Output::Received(received_len, rx_pkt_status)),
            ),
            _ => stray(c),
        },
    }
}

/// The start of a signal-strength measurement after a successful call.
pub open spec fn proceed_listen(c: State, at: ListenSetup, job: ListenJob, answer: Answer) -> (
    State,
    Step,
) {
    match at {
        ListenSetup::Channel => c.issue(
            Stage::Listen(ListenSetup::Create, job),
            listening_modulation(job),
        ),
        ListenSetup::Create => match answer {
            Answer::ModulationParams(mdltn_params) => c.issue(
                Stage::Listen(ListenSetup::Modulation, job),
                Command::SetModulationParams(mdltn_params),
            ),
            _ => stray(c),
        },
        ListenSetup::Modulation => c.in_mode(RadioMode::Listen).issue(
            Stage::Listen(ListenSetup::Rx, job),
            Command::DoRx(RxMode::Continuous),
        ),
        ListenSetup::Rx => c.finish(Ok(Output::Done)),
    }
}

/// The configuration of a channel activity detection after a successful call.
pub open spec fn proceed_prepare_for_cad(c: State, at: CadSetup, mdltn_params: ModulationParams) -> (
    State,
    Step,
) {
    match at {
        CadSetup::Modulation => c.issue(
            Stage::PrepareForCad(CadSetup::Channel, mdltn_params),
            Command::SetChannel(mdltn_params.frequency_in_hz),
        ),
        CadSetup::Channel => c.in_mode(RadioMode::ChannelActivityDetection).issue(
            Stage::PrepareForCad(CadSetup::Irq, mdltn_params),
            Command::SetIrqParams(Some(RadioMode::ChannelActivityDetection)),
        ),
        CadSetup::Irq => c.finish(Ok(Output::Done)),
    }
}

/// A channel activity detection after a successful call: start, wait for one
/// interrupt, process it, and yield whether it reported activity. The radio is
/// then back in standby.
pub open spec fn proceed_cad(c: State, at: Execution, answer: Answer) -> (State, Step) {
    match at {
        Execution::Start => c.issue(Stage::Cad(Execution::Wait), Command::AwaitIrq),
        Execution::Wait => c.issue(Stage::Cad(Execution::Process), c.process_irq(true)),
        Execution::Process => match answer {
            Answer::Irq { state: Some(IrqState::Done), cad_activity_detected } => c.in_mode(
                RadioMode::Standby,
            ).finish(Ok(Output::ActivityDetected(cad_activity_detected))),
            _ => stray(c),
        },
    }
}

/// The start of an unmodulated carrier after a successful call.
pub open spec fn proceed_continuous_wave(
    c: State,
    at: WaveSetup,
    job: WaveJob,
    answer: Answer,
) -> (State, Step) {
    let tune = Command::SetChannel(job.mdltn_params.frequency_in_hz);
    match at {
        WaveSetup::Create => match answer {
            Answer::PacketParams(tx_pkt_params) => c.issue(
                Stage::ContinuousWave(WaveSetup::Packet, job),
                Command::SetPacketParams(tx_pkt_params),
            ),
            _ => stray(c),
        },
        WaveSetup::Packet => c.issue(
            Stage::ContinuousWave(WaveSetup::Modulation, job),
            Command::SetModulationParams(job.mdltn_params),
        ),
        WaveSetup::Modulation => c.issue(
            Stage::ContinuousWave(WaveSetup::Power, job),
            transmit_power(job.output_power, job.mdltn_params),
        ),
        WaveSetup::Power => c.issue(
            Stage::ContinuousWave(WaveSetup::Ready, job),
            Command::EnsureReady(c.radio_mode),
        ),
        WaveSetup::Ready => if c.radio_mode != RadioMode::Standby {
            c.issue(Stage::ContinuousWave(WaveSetup::Standby, job), Command::SetStandby)
        } else {
            c.issue(Stage::ContinuousWave(WaveSetup::Channel, job), tune)
        },
        WaveSetup::Standby => c.in_mode(RadioMode::Standby).issue(
            Stage::ContinuousWave(WaveSetup::Channel, job),
            tune,
        ),
        WaveSetup::Channel => c.in_mode(RadioMode::Transmit).issue(
            Stage::ContinuousWave(WaveSetup::Irq, job),
            Command::SetIrqParams(Some(RadioMode::Transmit)),
        ),
        WaveSetup::Irq => c.issue(
            Stage::ContinuousWave(WaveSetup::Wave, job),
            Command::SetTxContinuousWaveMode,
        ),
        WaveSetup::Wave => c.finish(Ok(Output::Done)),
    }
}

/// The return to standby after a successful call. Once the radio is there,
/// the operation ends with the failure that made the return necessary.
pub open spec fn proceed_recover(c: State, at: Recovery, cause: RadioError) -> (State, Step) {
    match at {
        Recovery::Ready => c.issue(Stage::Recover(Recovery::Standby, cause), Command::SetStandby),
        Recovery::Standby => c.in_mode(RadioMode::Standby).finish(Err(cause)),
    }
}

} // verus!
