//! The executable controller.

use vstd::prelude::*;
use crate::command::{Answer, AnswerKind, Command, Output, Step};
use crate::mod_params::{
    Bandwidth, CodingRate, IrqState, ModulationParams, PacketParams, RadioError, RadioMode, RxMode,
    SpreadingFactor,
};
use crate::model::{
    admits, begin, calibrate, cold_start_next, complete_rx, configure, fail, frame, prepare,
    proceed, proceed_cad, proceed_complete_rx, proceed_continuous_wave, proceed_init,
    proceed_listen, proceed_modem, proceed_prepare_for_cad, proceed_prepare_for_rx,
    proceed_prepare_for_tx, proceed_recover, proceed_rx_switch_channel, proceed_sleep, proceed_tx,
    lorawan_sync_word, resume, stray, warm_up, Request, State, LORAWAN_PRIVATE_SYNCWORD,
    LORAWAN_PUBLIC_SYNCWORD,
};
use crate::stage::{
    CadSetup, ColdStart, Completion, Execution, InitStage, ListenJob, ListenSetup, Modem, Prepared,
    Recovery, Retune, RxJob, RxSetup, SleepStage, Stage, TxJob, TxSetup, WaveJob, WaveSetup,
};

verus! {

/// The physical-layer controller of one LoRa radio.
///
/// An operation is started by the method that bears its name, which returns
/// the controller's first [`Step`]. While the step is [`Step::Issue`], the
/// caller makes the call on the radio and passes what it returned to
/// [`LoRa::advance`], which returns the next step. [`Step::Finish`] ends the
/// operation with its result.
///
/// Once a transmission, the completion of a reception or a channel activity
/// detection has been started it must be driven to its end: a radio left
/// halfway may lock up until it is reset. A caller that has stopped waiting
/// all the same says so with [`LoRa::abandon`] before it asks for anything
/// else.
pub struct LoRa {
    state: State,
}

impl View for LoRa {
    type V = State;

    closed spec fn view(&self) -> State {
        self.state
    }
}

impl LoRa {
    /// Builds the controller of a radio that uses the given sync word and
    /// starts initialising the radio.
    pub fn with_syncword(sync_word: u8) -> (started: (LoRa, Step))
        ensures
            (started.0@, started.1) == begin(State::fresh(sync_word), Request::Init),
    {
        let mut lora = LoRa {
            state: State {
                radio_mode: RadioMode::Sleep,
                sync_word,
                cold_start: true,
                calibrate_image: true,
                stage: Stage::Idle,
            },
        };
        let step = lora.init();
        (lora, step)
    }

    /// Builds the controller of a radio on a public or private LoRaWAN
    /// network and starts initialising the radio.
    pub fn new(enable_public_network: bool) -> (started: (LoRa, Step))
        ensures
            (started.0@, started.1) == begin(
                State::fresh(lorawan_sync_word(enable_public_network)),
                Request::Init,
            ),
    {
        let sync_word = if enable_public_network {
            LORAWAN_PUBLIC_SYNCWORD
        } else {
            LORAWAN_PRIVATE_SYNCWORD
        };
        Self::with_syncword(sync_word)
    }

    /// The mode the radio was last put in.
    pub fn radio_mode(&self) -> (radio_mode: RadioMode)
        ensures
            radio_mode == self@.radio_mode,
    {
        self.state.radio_mode
    }

    /// The sync word programmed by every cold start.
    pub fn sync_word(&self) -> (sync_word: u8)
        ensures
            sync_word == self@.sync_word,
    {
        self.state.sync_word
    }

    /// Whether the next operation that needs the modem will initialise it anew.
    pub fn cold_start(&self) -> (cold_start: bool)
        ensures
            cold_start == self@.cold_start,
    {
        self.state.cold_start
    }

    /// Whether the next operation that needs the modem will calibrate the image.
    pub fn calibrate_image(&self) -> (calibrate_image: bool)
        ensures
            calibrate_image == self@.calibrate_image,
    {
        self.state.calibrate_image
    }

    /// Where the operation under way stands.
    pub fn stage(&self) -> (stage: Stage)
        ensures
            stage == self@.stage,
    {
        self.state.stage
    }

    /// Whether no operation is under way.
    pub fn is_idle(&self) -> (idle: bool)
        ensures
            idle == (self@.stage is Idle),
    {
        match self.state.stage {
            Stage::Idle => true,
            _ => false,
        }
    }

    /// Gives up the operation under way, for a caller that has stopped
    /// waiting for the radio: the controller is at rest, in the mode and with
    /// the flags that the operation had got to. The radio is told nothing.
    pub fn abandon(&mut self)
        ensures
            final(self)@ == old(self)@.at(Stage::Idle),
    {
        self.state.stage = Stage::Idle;
    }

    /// Whether `reply` can be what the radio returned from the call that the
    /// controller is waiting on.
    pub fn admits(&self, reply: &Result<Answer, RadioError>) -> (admitted: bool)
        ensures
            admitted == admits(self@, *reply),
    {
        match self.state.stage {
            Stage::Idle => false,
            stage => match reply {
                Err(_) => true,
                Ok(answer) => {
                    let kind = answer.kind();
                    match stage {
                        Stage::Cad(Execution::Process) => match answer {
                            Answer::Irq { state: Some(IrqState::Done), .. } => true,
                            _ => false,
                        },
                        Stage::ProcessIrqEvent
                        | Stage::GetIrqState
                        | Stage::Tx(Execution::Process)
                        | Stage::CompleteRx(Completion::Process, _) => match kind {
                            AnswerKind::Irq => true,
                            _ => false,
                        },
                        Stage::CreateModulationParams
                        | Stage::Listen(ListenSetup::Create, _) => match kind {
                            AnswerKind::ModulationParams => true,
                            _ => false,
                        },
                        Stage::CreatePacketParams
                        | Stage::ContinuousWave(WaveSetup::Create, _) => match kind {
                            AnswerKind::PacketParams => true,
                            _ => false,
                        },
                        Stage::CompleteRx(Completion::Payload, _) => match kind {
                            AnswerKind::PayloadLength => true,
                            _ => false,
                        },
                        Stage::CompleteRx(Completion::Status(_), _) => match kind {
                            AnswerKind::PacketStatus => true,
                            _ => false,
                        },
                        Stage::GetRssi => match kind {
                            AnswerKind::Rssi => true,
                            _ => false,
                        },
                        _ => match kind {
                            AnswerKind::Done => true,
                            _ => false,
                        },
                    }
                },
            },
        }
    }

    fn issue(&mut self, stage: Stage, command: Command) -> (step: Step)
        ensures
            (final(self)@, step) == old(self)@.issue(stage, command),
    {
        self.state.stage = stage;
        Step::Issue(command)
    }

    fn finish(&mut self, result: Result<Output, RadioError>) -> (step: Step)
        ensures
            (final(self)@, step) == old(self)@.finish(result),
    {
        self.state.stage = Stage::Idle;
        Step::Finish(result)
    }

    fn refuse(&mut self) -> (step: Step)
        ensures
            (final(self)@, step) == old(self)@.refuse(),
    {
        self.finish(Err(RadioError::InvalidRadioMode))
    }

    fn process_irq(&self, cad_activity: bool) -> (command: Command)
        ensures
            command == self@.process_irq(cad_activity),
    {
        Command::ProcessIrqEvent {
            radio_mode: self.state.radio_mode,
            cad_activity,
            is_blocking: true,
        }
    }

    /// Waits for the radio to raise its interrupt line.
    pub fn wait_for_irq(&mut self) -> (step: Step)
        requires
            old(self)@.stage is Idle,
        ensures
            (final(self)@, step) == begin(old(self)@, Request::WaitForIrq),
    {
        self.issue(Stage::WaitForIrq, Command::AwaitIrq)
    }

    /// Processes the interrupt flags once and yields what they say.
    pub fn process_irq_event(&mut self) -> (step: Step)
        requires
            old(self)@.stage is Idle,
        ensures
            (final(self)@, step) == begin(old(self)@, Request::ProcessIrqEvent),
    {
        let command = Command::ProcessIrqEvent {
            radio_mode: self.state.radio_mode,
            cad_activity: false,
            is_blocking: false,
        };
        self.issue(Stage::ProcessIrqEvent, command)
    }

    /// Has the radio encode modulation parameters for a communication channel.
    pub fn create_modulation_params(
        &mut self,
        spreading_factor: SpreadingFactor,
        bandwidth: Bandwidth,
        coding_rate: CodingRate,
        frequency_in_hz: u32,
    ) -> (step: Step)
        requires
            old(self)@.stage is Idle,
        ensures
            (final(self)@, step) == begin(
                old(self)@,
                Request::CreateModulationParams(
                    spreading_factor,
                    bandwidth,
                    coding_rate,
                    frequency_in_hz,
                ),
            ),
    {
        let command = Command::CreateModulationParams {
            spreading_factor,
            bandwidth,
            coding_rate,
            frequency_in_hz,
        };
        self.issue(Stage::CreateModulationParams, command)
    }

    /// Has the radio encode packet parameters for a transmission. Their
    /// payload length is set when the transmission is prepared.
    pub fn create_tx_packet_params(
        &mut self,
        preamble_length: u16,
        implicit_header: bool,
        crc_on: bool,
        iq_inverted: bool,
        modulation_params: &ModulationParams,
    ) -> (step: Step)
        requires
            old(self)@.stage is Idle,
        ensures
            (final(self)@, step) == begin(
                old(self)@,
                Request::CreateTxPacketParams(
                    preamble_length,
                    implicit_header,
                    crc_on,
                    iq_inverted,
                    *modulation_params,
                ),
            ),
    {
        let command = Command::CreatePacketParams {
            preamble_length,
            implicit_header,
            payload_length: 0,
            crc_on,
            iq_inverted,
            modulation_params: *modulation_params,
        };
        self.issue(Stage::CreatePacketParams, command)
    }

    /// Has the radio encode packet parameters for a reception of payloads up
    /// to the given length.
    pub fn create_rx_packet_params(
        &mut self,
        preamble_length: u16,
        implicit_header: bool,
        max_payload_length: u8,
        crc_on: bool,
        iq_inverted: bool,
        modulation_params: &ModulationParams,
    ) -> (step: Step)
        requires
            old(self)@.stage is Idle,
        ensures
            (final(self)@, step) == begin(
                old(self)@,
                Request::CreateRxPacketParams(
                    preamble_length,
                    implicit_header,
                    max_payload_length,
                    crc_on,
                    iq_inverted,
                    *modulation_params,
                ),
            ),
    {
        let command = Command::CreatePacketParams {
            preamble_length,
            implicit_header,
            payload_length: max_payload_length,
            crc_on,
            iq_inverted,
            modulation_params: *modulation_params,
        };
        self.issue(Stage::CreatePacketParams, command)
    }

    /// Initialises the radio: reset, standby, cold start.
    ///
    /// This is the one operation that may be started while another is under
    /// way, which it replaces: a reset is what recovers a radio that was left
    /// halfway through an operation.
    pub fn init(&mut self) -> (step: Step)
        ensures
            (final(self)@, step) == begin(old(self)@, Request::Init),
    {
        self.state.cold_start = true;
        self.issue(Stage::Init(InitStage::Reset), Command::Reset)
    }

    /// Puts the radio in standby.
    pub fn enter_standby(&mut self) -> (step: Step)
        requires
            old(self)@.stage is Idle,
        ensures
            (final(self)@, step) == begin(old(self)@, Request::EnterStandby),
    {
        self.issue(Stage::EnterStandby, Command::SetStandby)
    }

    /// Puts the radio to sleep, unless it sleeps already. After a sleep for
    /// which no warm start was asked, the next use of the modem initialises
    /// it anew.
    pub fn sleep(&mut self, warm_start_if_possible: bool) -> (step: Step)
        requires
            old(self)@.stage is Idle,
        ensures
            (final(self)@, step) == begin(old(self)@, Request::Sleep(warm_start_if_possible)),
    {
        match self.state.radio_mode {
            RadioMode::Sleep => self.finish(Ok(Output::Done)),
            radio_mode => self.issue(
                Stage::Sleep(SleepStage::Ready, warm_start_if_possible),
                Command::EnsureReady(radio_mode),
            ),
        }
    }

    /// Prepares the radio for sending `buffer`. On success the mode is
    /// [`RadioMode::Transmit`].
    ///
    /// The packet parameters that the radio is programmed with are those
    /// given, with the length of `buffer` as their payload length.
    pub fn prepare_for_tx(
        &mut self,
        mdltn_params: &ModulationParams,
        tx_pkt_params: &PacketParams,
        output_power: i32,
        buffer: &[u8],
    ) -> (step: Step)
        requires
            old(self)@.stage is Idle,
        ensures
            (final(self)@, step) == begin(
                old(self)@,
                Request::PrepareForTx(
                    *mdltn_params,
                    *tx_pkt_params,
                    output_power,
                    buffer@.len() as usize,
                ),
            ),
    {
        self.prepare(
            Prepared::Tx(
                TxJob {
                    mdltn_params: *mdltn_params,
                    tx_pkt_params: *tx_pkt_params,
                    output_power,
                    length: buffer.len(),
                },
            ),
        )
    }

    /// Carries out the prepared transmission. On success the mode is
    /// [`RadioMode::Standby`].
    pub fn tx(&mut self) -> (step: Step)
        requires
            old(self)@.stage is Idle,
        ensures
            (final(self)@, step) == begin(old(self)@, Request::Tx),
            !(old(self)@.radio_mode is Transmit) ==> final(self)@ == old(self)@ && step
                == Step::Finish(Err(RadioError::InvalidRadioMode)),
    {
        match self.state.radio_mode {
            RadioMode::Transmit => self.issue(Stage::Tx(Execution::Start), Command::DoTx),
            _ => self.refuse(),
        }
    }

    /// Prepares the radio for a reception. On success the mode is
    /// [`RadioMode::Receive`] with the given listen mode.
    pub fn prepare_for_rx(
        &mut self,
        listen_mode: RxMode,
        mdltn_params: &ModulationParams,
        rx_pkt_params: &PacketParams,
    ) -> (step: Step)
        requires
            old(self)@.stage is Idle,
        ensures
            (final(self)@, step) == begin(
                old(self)@,
                Request::PrepareForRx(listen_mode, *mdltn_params, *rx_pkt_params),
            ),
    {
        self.prepare(
            Prepared::Rx(
                RxJob { listen_mode, mdltn_params: *mdltn_params, rx_pkt_params: *rx_pkt_params },
            ),
        )
    }

    /// Moves a prepared or running reception to another frequency.
    pub fn rx_switch_channel(&mut self, frequency_in_hz: u32) -> (step: Step)
        requires
            old(self)@.stage is Idle,
        ensures
            (final(self)@, step) == begin(old(self)@, Request::RxSwitchChannel(frequency_in_hz)),
            !(old(self)@.radio_mode is Receive) ==> final(self)@ == old(self)@ && step
                == Step::Finish(Err(RadioError::InvalidRadioMode)),
    {
        match self.state.radio_mode {
            RadioMode::Receive(listen_mode) => self.issue(
                Stage::RxSwitchChannel(Retune::Standby, frequency_in_hz, listen_mode),
                Command::SetStandby,
            ),
            _ => self.refuse(),
        }
    }

    /// Starts the prepared reception.
    pub fn start_rx(&mut self) -> (step: Step)
        requires
            old(self)@.stage is Idle,
        ensures
            (final(self)@, step) == begin(old(self)@, Request::StartRx),
            !(old(self)@.radio_mode is Receive) ==> final(self)@ == old(self)@ && step
                == Step::Finish(Err(RadioError::InvalidRadioMode)),
    {
        match self.state.radio_mode {
            RadioMode::Receive(listen_mode) => self.issue(Stage::StartRx, Command::DoRx(listen_mode)),
            _ => self.refuse(),
        }
    }

    /// Waits for the started reception to end and fetches the length and the
    /// signal quality of what was received. The mode stays
    /// [`RadioMode::Receive`], so that another reception can follow.
    pub fn complete_rx(&mut self, packet_params: &PacketParams) -> (step: Step)
        requires
            old(self)@.stage is Idle,
        ensures
            (final(self)@, step) == begin(old(self)@, Request::CompleteRx(*packet_params)),
            !(old(self)@.radio_mode is Receive) ==> final(self)@ == old(self)@ && step
                == Step::Finish(Err(RadioError::InvalidRadioMode)),
    {
        self.await_reception(*packet_params)
    }

    /// Reads the interrupt flags as they stand.
    pub fn get_irq_state(&mut self) -> (step: Step)
        requires
            old(self)@.stage is Idle,
        ensures
            (final(self)@, step) == begin(old(self)@, Request::GetIrqState),
    {
        let command = Command::GetIrqState {
            radio_mode: self.state.radio_mode,
            cad_activity: false,
        };
        self.issue(Stage::GetIrqState, command)
    }

    /// Clears the interrupt flags.
    pub fn clear_irq_status(&mut self) -> (step: Step)
        requires
            old(self)@.stage is Idle,
        ensures
            (final(self)@, step) == begin(old(self)@, Request::ClearIrqStatus),
    {
        self.issue(Stage::ClearIrqStatus, Command::ClearIrqStatus)
    }

    /// Fetches the length and the signal quality of a received packet, for
    /// callers that have watched the interrupt flags themselves.
    pub fn get_rx_result(&mut self, packet_params: &PacketParams) -> (step: Step)
        requires
            old(self)@.stage is Idle,
        ensures
            (final(self)@, step) == begin(old(self)@, Request::GetRxResult(*packet_params)),
            !(old(self)@.radio_mode is Receive) ==> final(self)@ == old(self)@ && step
                == Step::Finish(Err(RadioError::InvalidRadioMode)),
    {
        match self.state.radio_mode {
            RadioMode::Receive(_) => self.issue(
                Stage::CompleteRx(Completion::Payload, *packet_params),
                Command::GetRxPayload(*packet_params),
            ),
            _ => self.refuse(),
        }
    }

    /// Starts the prepared reception and waits for it to end.
    pub fn rx(&mut self, packet_params: &PacketParams) -> (step: Step)
        requires
            old(self)@.stage is Idle,
        ensures
            (final(self)@, step) == begin(old(self)@, Request::Rx(*packet_params)),
            !(old(self)@.radio_mode is Receive) ==> final(self)@ == old(self)@ && step
                == Step::Finish(Err(RadioError::InvalidRadioMode)),
    {
        match self.state.radio_mode {
            RadioMode::Receive(listen_mode) => self.issue(
                Stage::Rx(*packet_params),
                Command::DoRx(listen_mode),
            ),
            _ => self.refuse(),
        }
    }

    /// Starts receiving on a frequency only to sample its signal strength.
    /// On success the mode is [`RadioMode::Listen`].
    pub fn listen(&mut self, frequency_in_hz: u32, bandwidth: Bandwidth) -> (step: Step)
        requires
            old(self)@.stage is Idle,
        ensures
            (final(self)@, step) == begin(old(self)@, Request::Listen(frequency_in_hz, bandwidth)),
    {
        self.prepare(Prepared::Listen(ListenJob { frequency_in_hz, bandwidth }))
    }

    /// Samples the signal strength of the channel.
    pub fn get_rssi(&mut self) -> (step: Step)
        requires
            old(self)@.stage is Idle,
        ensures
            (final(self)@, step) == begin(old(self)@, Request::GetRssi),
    {
        self.issue(Stage::GetRssi, Command::GetRssi)
    }

    /// Prepares the radio for a channel activity detection. On success the
    /// mode is [`RadioMode::ChannelActivityDetection`].
    pub fn prepare_for_cad(&mut self, mdltn_params: &ModulationParams) -> (step: Step)
        requires
            old(self)@.stage is Idle,
        ensures
            (final(self)@, step) == begin(old(self)@, Request::PrepareForCad(*mdltn_params)),
    {
        self.prepare(Prepared::Cad(*mdltn_params))
    }

    /// Carries out the prepared channel activity detection and yields whether
    /// activity was detected. On success the mode is [`RadioMode::Standby`].
    pub fn cad(&mut self, mdltn_params: &ModulationParams) -> (step: Step)
        requires
            old(self)@.stage is Idle,
        ensures
            (final(self)@, step) == begin(old(self)@, Request::Cad(*mdltn_params)),
            !(old(self)@.radio_mode is ChannelActivityDetection) ==> final(self)@ == old(self)@
                && step == Step::Finish(Err(RadioError::InvalidRadioMode)),
    {
        match self.state.radio_mode {
            RadioMode::ChannelActivityDetection => self.issue(
                Stage::Cad(Execution::Start),
                Command::DoCad(*mdltn_params),
            ),
            _ => self.refuse(),
        }
    }

    /// Has the radio emit an unmodulated carrier, as regulatory tests ask
    /// for. The carrier stays on until the radio is put in another mode.
    pub fn continuous_wave(&mut self, mdltn_params: &ModulationParams, output_power: i32) -> (step:
        Step)
        requires
            old(self)@.stage is Idle,
        ensures
            (final(self)@, step) == begin(
                old(self)@,
                Request::ContinuousWave(*mdltn_params, output_power),
            ),
    {
        self.prepare(Prepared::Wave(WaveJob { mdltn_params: *mdltn_params, output_power }))
    }

    /// Takes what the radio returned from the call that the last step asked
    /// for, and says how the operation goes on.
    pub fn advance(&mut self, reply: Result<Answer, RadioError>) -> (step: Step)
        requires
            admits(old(self)@, reply),
        ensures
            (final(self)@, step) == resume(old(self)@, reply),
    {
        match reply {
            Err(cause) => self.fail(cause),
            Ok(answer) => self.proceed(answer),
        }
    }

    fn fail(&mut self, cause: RadioError) -> (step: Step)
        ensures
            (final(self)@, step) == fail(old(self)@, cause),
    {
        let recovers = match self.state.stage {
            Stage::Tx(Execution::Process) | Stage::Cad(Execution::Process) => true,
            Stage::CompleteRx(Completion::Process, _) => match self.state.radio_mode {
                RadioMode::Receive(RxMode::Continuous) => false,
                _ => true,
            },
            _ => false,
        };
        if recovers {
            let command = Command::EnsureReady(self.state.radio_mode);
            self.issue(Stage::Recover(Recovery::Ready, cause), command)
        } else {
            self.finish(Err(cause))
        }
    }

    fn proceed(&mut self, answer: Answer) -> (step: Step)
        ensures
            (final(self)@, step) == proceed(old(self)@, answer),
    {
        match self.state.stage {
            Stage::Idle => self.stray(),
            Stage::WaitForIrq
            | Stage::ProcessIrqEvent
            | Stage::CreateModulationParams
            | Stage::CreatePacketParams
            | Stage::StartRx
            | Stage::GetIrqState
            | Stage::ClearIrqStatus
            | Stage::GetRssi => {
                let output = match answer {
                    Answer::ModulationParams(mdltn_params) => Output::ModulationParams(
                        mdltn_params,
                    ),
                    Answer::PacketParams(pkt_params) => Output::PacketParams(pkt_params),
                    Answer::Irq { state, .. } => Output::Irq(state),
                    Answer::Rssi(rssi) => Output::Rssi(rssi),
                    _ => Output::Done,
                };
                self.finish(Ok(output))
            },
            Stage::EnterStandby => {
                self.state.radio_mode = RadioMode::Standby;
                self.finish(Ok(Output::Done))
            },
            Stage::Init(at) => self.proceed_init(at),
            Stage::Sleep(at, warm_start_if_possible) => self.proceed_sleep(
                at,
                warm_start_if_possible,
            ),
            Stage::Modem(at, operation) => self.proceed_modem(at, operation),
            Stage::PrepareForTx(at, job) => self.proceed_prepare_for_tx(at, job),
            Stage::Tx(at) => self.proceed_tx(at, answer),
            Stage::PrepareForRx(at, job) => self.proceed_prepare_for_rx(at, job),
            Stage::RxSwitchChannel(at, frequency_in_hz, listen_mode) => {
                self.proceed_rx_switch_channel(at, frequency_in_hz, listen_mode)
            },
            Stage::Rx(packet_params) => self.await_reception(packet_params),
            Stage::CompleteRx(at, packet_params) => self.proceed_complete_rx(
                at,
                packet_params,
                answer,
            ),
            Stage::Listen(at, job) => self.proceed_listen(at, job, answer),
            Stage::PrepareForCad(at, mdltn_params) => self.proceed_prepare_for_cad(
                at,
                mdltn_params,
            ),
            Stage::Cad(at) => self.proceed_cad(at, answer),
            Stage::ContinuousWave(at, job) => self.proceed_continuous_wave(at, job, answer),
            Stage::Recover(at, cause) => self.proceed_recover(at, cause),
        }
    }

    fn stray(&self) -> (step: Step)
        ensures
            (self@, step) == stray(self@),
    {
        Step::Finish(Err(RadioError::InvalidRadioMode))
    }

    fn await_reception(&mut self, packet_params: PacketParams) -> (step: Step)
        ensures
            (final(self)@, step) == complete_rx(old(self)@, packet_params),
    {
        match self.state.radio_mode {
            RadioMode::Receive(_) => {
                let command = self.process_irq(false);
                self.issue(Stage::CompleteRx(Completion::Process, packet_params), command)
            },
            _ => self.refuse(),
        }
    }

    fn cold_start_next(&self, at: ColdStart) -> (next: Option<(ColdStart, Command)>)
        ensures
            next == cold_start_next(self@, at),
    {
        match at {
            ColdStart::InitLora => Some(
                (
                    ColdStart::TxPower,
                    Command::SetTxPowerAndRampTime {
                        output_power: 0,
                        mdltn_params: None,
                        is_tx: false,
                    },
                ),
            ),
            ColdStart::TxPower => Some(
                (ColdStart::IrqParams, Command::SetIrqParams(Some(self.state.radio_mode))),
            ),
            ColdStart::IrqParams => None,
        }
    }

    fn cold_started(&mut self)
        ensures
            final(self)@ == old(self)@.cold_started(),
    {
        self.state.cold_start = false;
        self.state.calibrate_image = true;
    }

    fn proceed_init(&mut self, at: InitStage) -> (step: Step)
        ensures
            (final(self)@, step) == proceed_init(old(self)@, at),
    {
        match at {
            InitStage::Reset => {
                let command = Command::EnsureReady(self.state.radio_mode);
                self.issue(Stage::Init(InitStage::Ready), command)
            },
            InitStage::Ready => self.issue(Stage::Init(InitStage::Standby), Command::SetStandby),
            InitStage::Standby => {
                self.state.radio_mode = RadioMode::Standby;
                let command = Command::InitLora(self.state.sync_word);
                self.issue(Stage::Init(InitStage::Cold(ColdStart::InitLora)), command)
            },
            InitStage::Cold(cold) => match self.cold_start_next(cold) {
                Some((next, command)) => self.issue(Stage::Init(InitStage::Cold(next)), command),
                None => {
                    self.cold_started();
                    self.finish(Ok(Output::Done))
                },
            },
        }
    }

    fn proceed_sleep(&mut self, at: SleepStage, warm_start_if_possible: bool) -> (step: Step)
        ensures
            (final(self)@, step) == proceed_sleep(old(self)@, at, warm_start_if_possible),
    {
        match at {
            SleepStage::Ready => self.issue(
                Stage::Sleep(SleepStage::Sleep, warm_start_if_possible),
                Command::SetSleep(warm_start_if_possible),
            ),
            SleepStage::Sleep => {
                if !warm_start_if_possible {
                    self.state.cold_start = true;
                }
                self.state.radio_mode = RadioMode::Sleep;
                self.finish(Ok(Output::Done))
            },
        }
    }

    fn prepare(&mut self, operation: Prepared) -> (step: Step)
        ensures
            (final(self)@, step) == prepare(old(self)@, operation),
    {
        let command = Command::EnsureReady(self.state.radio_mode);
        self.issue(Stage::Modem(Modem::Ready, operation), command)
    }

    fn warm_up(&mut self, operation: Prepared) -> (step: Step)
        ensures
            (final(self)@, step) == warm_up(old(self)@, operation),
    {
        if self.state.cold_start {
            let command = Command::InitLora(self.state.sync_word);
            self.issue(Stage::Modem(Modem::Cold(ColdStart::InitLora), operation), command)
        } else {
            self.calibrate(operation)
        }
    }

    fn calibrate(&mut self, operation: Prepared) -> (step: Step)
        ensures
            (final(self)@, step) == calibrate(old(self)@, operation),
    {
        if self.state.calibrate_image {
            self.issue(
                Stage::Modem(Modem::Calibrate, operation),
                Command::CalibrateImage(operation.frequency()),
            )
        } else {
            self.configure(operation)
        }
    }

    fn configure(&mut self, operation: Prepared) -> (step: Step)
        ensures
            (final(self)@, step) == configure(old(self)@, operation),
    {
        match operation {
            Prepared::Tx(job) => self.issue(
                Stage::PrepareForTx(TxSetup::Modulation, job),
                Command::SetModulationParams(job.mdltn_params),
            ),
            Prepared::Rx(job) => self.issue(
                Stage::PrepareForRx(RxSetup::Modulation, job),
                Command::SetModulationParams(job.mdltn_params),
            ),
            Prepared::Listen(job) => self.issue(
                Stage::Listen(ListenSetup::Channel, job),
                Command::SetChannel(job.frequency_in_hz),
            ),
            Prepared::Cad(mdltn_params) => self.issue(
                Stage::PrepareForCad(CadSetup::Modulation, mdltn_params),
                Command::SetModulationParams(mdltn_params),
            ),
            Prepared::Wave(job) => self.issue(
                Stage::ContinuousWave(WaveSetup::Create, job),
                Command::CreatePacketParams {
                    preamble_length: 0,
                    implicit_header: true,
                    payload_length: 16,
                    crc_on: false,
                    iq_inverted: false,
                    modulation_params: job.mdltn_params,
                },
            ),
        }
    }

    fn proceed_modem(&mut self, at: Modem, operation: Prepared) -> (step: Step)
        ensures
            (final(self)@, step) == proceed_modem(old(self)@, at, operation),
    {
        match at {
            Modem::Ready => match self.state.radio_mode {
                RadioMode::Standby => self.warm_up(operation),
                _ => self.issue(Stage::Modem(Modem::Standby, operation), Command::SetStandby),
            },
            Modem::Standby => {
                self.state.radio_mode = RadioMode::Standby;
                self.warm_up(operation)
            },
            Modem::Cold(cold) => match self.cold_start_next(cold) {
                Some((next, command)) => self.issue(
                    Stage::Modem(Modem::Cold(next), operation),
                    command,
                ),
                None => {
                    self.cold_started();
                    self.calibrate(operation)
                },
            },
            Modem::Calibrate => {
                self.state.calibrate_image = false;
                self.configure(operation)
            },
        }
    }

    fn frame(&mut self, job: TxJob) -> (step: Step)
        ensures
            (final(self)@, step) == frame(old(self)@, job),
    {
        let mut framed = job.tx_pkt_params;
        match framed.set_payload_length(job.length) {
            Err(refusal) => self.finish(Err(refusal)),
            Ok(()) => self.issue(
                Stage::PrepareForTx(TxSetup::Packet, TxJob { tx_pkt_params: framed, ..job }),
                Command::SetPacketParams(framed),
            ),
        }
    }

    fn proceed_prepare_for_tx(&mut self, at: TxSetup, job: TxJob) -> (step: Step)
        ensures
            (final(self)@, step) == proceed_prepare_for_tx(old(self)@, at, job),
    {
        match at {
            TxSetup::Modulation => self.issue(
                Stage::PrepareForTx(TxSetup::Power, job),
                Command::SetTxPowerAndRampTime {
                    output_power: job.output_power,
                    mdltn_params: Some(job.mdltn_params),
                    is_tx: true,
                },
            ),
            TxSetup::Power => {
                let command = Command::EnsureReady(self.state.radio_mode);
                self.issue(Stage::PrepareForTx(TxSetup::Ready, job), command)
            },
            TxSetup::Ready => match self.state.radio_mode {
                RadioMode::Standby => self.frame(job),
                _ => self.issue(Stage::PrepareForTx(TxSetup::Standby, job), Command::SetStandby),
            },
            TxSetup::Standby => {
                self.state.radio_mode = RadioMode::Standby;
                self.frame(job)
            },
            TxSetup::Packet => self.issue(
                Stage::PrepareForTx(TxSetup::Channel, job),
                Command::SetChannel(job.mdltn_params.frequency_in_hz),
            ),
            TxSetup::Channel => self.issue(
                Stage::PrepareForTx(TxSetup::Payload, job),
                Command::SetPayload,
            ),
            TxSetup::Payload => {
                self.state.radio_mode = RadioMode::Transmit;
                self.issue(
                    Stage::PrepareForTx(TxSetup::Irq, job),
                    Command::SetIrqParams(Some(RadioMode::Transmit)),
                )
            },
            TxSetup::Irq => self.finish(Ok(Output::Done)),
        }
    }

    fn proceed_tx(&mut self, at: Execution, answer: Answer) -> (step: Step)
        ensures
            (final(self)@, step) == proceed_tx(old(self)@, at, answer),
    {
        match at {
            Execution::Start => self.issue(Stage::Tx(Execution::Wait), Command::AwaitIrq),
            Execution::Wait => {
                let command = self.process_irq(false);
                self.issue(Stage::Tx(Execution::Process), command)
            },
            Execution::Process => match answer {
                Answer::Irq { state: Some(_), .. } => {
                    self.state.radio_mode = RadioMode::Standby;
                    self.finish(Ok(Output::Done))
                },
                Answer::Irq { state: None, .. } => self.issue(
                    Stage::Tx(Execution::Wait),
                    Command::AwaitIrq,
                ),
                _ => self.stray(),
            },
        }
    }

    fn proceed_prepare_for_rx(&mut self, at: RxSetup, job: RxJob) -> (step: Step)
        ensures
            (final(self)@, step) == proceed_prepare_for_rx(old(self)@, at, job),
    {
        match at {
            RxSetup::Modulation => self.issue(
                Stage::PrepareForRx(RxSetup::Packet, job),
                Command::SetPacketParams(job.rx_pkt_params),
            ),
            RxSetup::Packet => self.issue(
                Stage::PrepareForRx(RxSetup::Channel, job),
                Command::SetChannel(job.mdltn_params.frequency_in_hz),
            ),
            RxSetup::Channel => {
                self.state.radio_mode = RadioMode::from(job.listen_mode);
                self.issue(
                    Stage::PrepareForRx(RxSetup::Irq, job),
                    Command::SetIrqParams(Some(RadioMode::Receive(job.listen_mode))),
                )
            },
            RxSetup::Irq => self.finish(Ok(Output::Done)),
        }
    }

    fn proceed_rx_switch_channel(
        &mut self,
        at: Retune,
        frequency_in_hz: u32,
        listen_mode: RxMode,
    ) -> (step: Step)
        ensures
            (final(self)@, step) == proceed_rx_switch_channel(
                old(self)@,
                at,
                frequency_in_hz,
                listen_mode,
            ),
    {
        match at {
            Retune::Standby => self.issue(
                Stage::RxSwitchChannel(Retune::Channel, frequency_in_hz, listen_mode),
                Command::SetChannel(frequency_in_hz),
            ),
            Retune::Channel => self.issue(
                Stage::RxSwitchChannel(Retune::Rx, frequency_in_hz, listen_mode),
                Command::DoRx(listen_mode),
            ),
            Retune::Rx => self.finish(Ok(Output::Done)),
        }
    }

    fn proceed_complete_rx(
        &mut self,
        at: Completion,
        packet_params: PacketParams,
        answer: Answer,
    ) -> (step: Step)
        ensures
            (final(self)@, step) == proceed_complete_rx(old(self)@, at, packet_params, answer),
    {
        match at {
            Completion::Process => match answer {
                Answer::Irq { state: Some(IrqState::Done), .. } => self.issue(
                    Stage::CompleteRx(Completion::Payload, packet_params),
                    Command::GetRxPayload(packet_params),
                ),
                Answer::Irq { .. } => self.issue(
                    Stage::CompleteRx(Completion::Wait, packet_params),
                    Command::AwaitIrq,
                ),
                _ => self.stray(),
            },
            Completion::Wait => {
                let command = self.process_irq(false);
                self.issue(Stage::CompleteRx(Completion::Process, packet_params), command)
            },
            Completion::Payload => match answer {
                Answer::PayloadLength(received_len) => self.issue(
                    Stage::CompleteRx(Completion::Status(received_len), packet_params),
                    Command::GetRxPacketStatus,
                ),
                _ => self.stray(),
            },
            Completion::Status(received_len) => match answer {
                Answer::PacketStatus(rx_pkt_status) => self.finish(
                    Ok(Output::Received(received_len, rx_pkt_status)),
                ),
                _ => self.stray(),
            },
        }
    }

    fn proceed_listen(&mut self, at: ListenSetup, job: ListenJob, answer: Answer) -> (step: Step)
        ensures
            (final(self)@, step) == proceed_listen(old(self)@, at, job, answer),
    {
        match at {
            ListenSetup::Channel => self.issue(
                Stage::Listen(ListenSetup::Create, job),
                Command::CreateModulationParams {
                    spreading_factor: SpreadingFactor::_7,
                    bandwidth: job.bandwidth,
                    coding_rate: CodingRate::_4_5,
                    frequency_in_hz: job.frequency_in_hz,
                },
            ),
            ListenSetup::Create => match answer {
                Answer::ModulationParams(mdltn_params) => self.issue(
                    Stage::Listen(ListenSetup::Modulation, job),
                    Command::SetModulationParams(mdltn_params),
                ),
                _ => self.stray(),
            },
            ListenSetup::Modulation => {
                self.state.radio_mode = RadioMode::Listen;
                self.issue(Stage::Listen(ListenSetup::Rx, job), Command::DoRx(RxMode::Continuous))
            },
            ListenSetup::Rx => self.finish(Ok(Output::Done)),
        }
    }

    fn proceed_prepare_for_cad(&mut self, at: CadSetup, mdltn_params: ModulationParams) -> (step:
        Step)
        ensures
            (final(self)@, step) == proceed_prepare_for_cad(old(self)@, at, mdltn_params),
    {
        match at {
            CadSetup::Modulation => self.issue(
                Stage::PrepareForCad(CadSetup::Channel, mdltn_params),
                Command::SetChannel(mdltn_params.frequency_in_hz),
            ),
            CadSetup::Channel => {
                self.state.radio_mode = RadioMode::ChannelActivityDetection;
                self.issue(
                    Stage::PrepareForCad(CadSetup::Irq, mdltn_params),
                    Command::SetIrqParams(Some(RadioMode::ChannelActivityDetection)),
                )
            },
            CadSetup::Irq => self.finish(Ok(Output::Done)),
        }
    }

    fn proceed_cad(&mut self, at: Execution, answer: Answer) -> (step: Step)
        ensures
            (final(self)@, step) == proceed_cad(old(self)@, at, answer),
    {
        match at {
            Execution::Start => self.issue(Stage::Cad(Execution::Wait), Command::AwaitIrq),
            Execution::Wait => {
                let command = self.process_irq(true);
                self.issue(Stage::Cad(Execution::Process), command)
            },
            Execution::Process => match answer {
                Answer::Irq { state: Some(IrqState::Done), cad_activity_detected } => {
                    self.state.radio_mode = RadioMode::Standby;
                    self.finish(Ok(Output::ActivityDetected(cad_activity_detected)))
                },
                _ => self.stray(),
            },
        }
    }

    fn proceed_continuous_wave(&mut self, at: WaveSetup, job: WaveJob, answer: Answer) -> (step:
        Step)
        ensures
            (final(self)@, step) == proceed_continuous_wave(old(self)@, at, job, answer),
    {
        match at {
            WaveSetup::Create => match answer {
                Answer::PacketParams(tx_pkt_params) => self.issue(
                    Stage::ContinuousWave(WaveSetup::Packet, job),
                    Command::SetPacketParams(tx_pkt_params),
                ),
                _ => self.stray(),
            },
            WaveSetup::Packet => self.issue(
                Stage::ContinuousWave(WaveSetup::Modulation, job),
                Command::SetModulationParams(job.mdltn_params),
            ),
            WaveSetup::Modulation => self.issue(
                Stage::ContinuousWave(WaveSetup::Power, job),
                Command::SetTxPowerAndRampTime {
                    output_power: job.output_power,
                    mdltn_params: Some(job.mdltn_params),
                    is_tx: true,
                },
            ),
            WaveSetup::Power => {
                let command = Command::EnsureReady(self.state.radio_mode);
                self.issue(Stage::ContinuousWave(WaveSetup::Ready, job), command)
            },
            WaveSetup::Ready => match self.state.radio_mode {
                RadioMode::Standby => self.issue(
                    Stage::ContinuousWave(WaveSetup::Channel, job),
                    Command::SetChannel(job.mdltn_params.frequency_in_hz),
                ),
                _ => self.issue(
                    Stage::ContinuousWave(WaveSetup::Standby, job),
                    Command::SetStandby,
                ),
            },
            WaveSetup::Standby => {
                self.state.radio_mode = RadioMode::Standby;
                self.issue(
                    Stage::ContinuousWave(WaveSetup::Channel, job),
                    Command::SetChannel(job.mdltn_params.frequency_in_hz),
                )
            },
            WaveSetup::Channel => {
                self.state.radio_mode = RadioMode::Transmit;
                self.issue(
                    Stage::ContinuousWave(WaveSetup::Irq, job),
                    Command::SetIrqParams(Some(RadioMode::Transmit)),
                )
            },
            WaveSetup::Irq => self.issue(
                Stage::ContinuousWave(WaveSetup::Wave, job),
                Command::SetTxContinuousWaveMode,
            ),
            WaveSetup::Wave => self.finish(Ok(Output::Done)),
        }
    }

    fn proceed_recover(&mut self, at: Recovery, cause: RadioError) -> (step: Step)
        ensures
            (final(self)@, step) == proceed_recover(old(self)@, at, cause),
    {
        match at {
            Recovery::Ready => self.issue(
                Stage::Recover(Recovery::Standby, cause),
                Command::SetStandby,
            ),
            Recovery::Standby => {
                self.state.radio_mode = RadioMode::Standby;
                self.finish(Err(cause))
            },
        }
    }
}

} // verus!
