//! The vocabulary of the dialogue between the controller and its caller.

use vstd::prelude::*;
use crate::mod_params::{
    Bandwidth, CodingRate, IrqState, ModulationParams, PacketParams, PacketStatus, RadioError,
    RadioMode, RxMode, SpreadingFactor,
};

verus! {

/// One call to make on the radio.
#[derive(Clone, Copy, Debug, PartialEq, Eq, Structural)]
pub enum Command {
    /// Pulse the reset line.
    Reset,
    /// Wake the radio, if the given mode requires it, and wait until it accepts commands.
    EnsureReady(RadioMode),
    /// Enter standby.
    SetStandby,
    /// Enter sleep, keeping the configuration if asked to and if the radio can.
    SetSleep(bool),
    /// Select the LoRa modem and program the sync word.
    InitLora(u8),
    /// Encode modulation parameters for this radio.
    CreateModulationParams {
        spreading_factor: SpreadingFactor,
        bandwidth: Bandwidth,
        coding_rate: CodingRate,
        frequency_in_hz: u32,
    },
    /// Encode packet parameters for this radio.
    CreatePacketParams {
        preamble_length: u16,
        implicit_header: bool,
        payload_length: u8,
        crc_on: bool,
        iq_inverted: bool,
        modulation_params: ModulationParams,
    },
    /// Program the modulation.
    SetModulationParams(ModulationParams),
    /// Program the packet framing.
    SetPacketParams(PacketParams),
    /// Tune to a frequency, in Hz.
    SetChannel(u32),
    /// Program output power and ramp time.
    SetTxPowerAndRampTime {
        output_power: i32,
        mdltn_params: Option<ModulationParams>,
        is_tx: bool,
    },
    /// Copy the payload to send into the radio's buffer.
    SetPayload,
    /// Calibrate the image rejection for a frequency, in Hz.
    CalibrateImage(u32),
    /// Program the interrupt mask that suits a mode.
    SetIrqParams(Option<RadioMode>),
    /// Start transmitting.
    DoTx,
    /// Start receiving.
    DoRx(RxMode),
    /// Start a channel activity detection.
    DoCad(ModulationParams),
    /// Start emitting an unmodulated carrier.
    SetTxContinuousWaveMode,
    /// Wait until the radio raises its interrupt line.
    AwaitIrq,
    /// Read and interpret the interrupt flags, reporting channel activity if asked to.
    ProcessIrqEvent { radio_mode: RadioMode, cad_activity: bool, is_blocking: bool },
    /// Read the interrupt flags as they stand, reporting channel activity if asked to.
    GetIrqState { radio_mode: RadioMode, cad_activity: bool },
    /// Clear the interrupt flags.
    ClearIrqStatus,
    /// Copy the received payload out of the radio's buffer.
    GetRxPayload(PacketParams),
    /// Read the signal quality of the received packet.
    GetRxPacketStatus,
    /// Sample the signal strength of the channel.
    GetRssi,
}

/// What a call on the radio yielded when it succeeded.
#[derive(Clone, Copy, Debug, PartialEq, Eq, Structural)]
pub enum Answer {
    /// Nothing beyond success.
    Done,
    /// Encoded modulation parameters.
    ModulationParams(ModulationParams),
    /// Encoded packet parameters.
    PacketParams(PacketParams),
    /// The interpreted interrupt flags, and whether channel activity was detected.
    Irq { state: Option<IrqState>, cad_activity_detected: bool },
    /// The length of the received payload.
    PayloadLength(u8),
    /// The signal quality of the received packet.
    PacketStatus(PacketStatus),
    /// The signal strength of the channel.
    Rssi(i16),
}

/// The shapes an [`Answer`] can have.
#[derive(Clone, Copy, Debug, PartialEq, Eq, Structural)]
pub enum AnswerKind {
    Done,
    ModulationParams,
    PacketParams,
    Irq,
    PayloadLength,
    PacketStatus,
    Rssi,
}

impl Answer {
    /// The shape of this answer.
    pub open spec fn spec_kind(&self) -> AnswerKind {
        match *self {
            Answer::Done => AnswerKind::Done,
            Answer::ModulationParams(_) => AnswerKind::ModulationParams,
            Answer::PacketParams(_) => AnswerKind::PacketParams,
            Answer::Irq { .. } => AnswerKind::Irq,
            Answer::PayloadLength(_) => AnswerKind::PayloadLength,
            Answer::PacketStatus(_) => AnswerKind::PacketStatus,
            Answer::Rssi(_) => AnswerKind::Rssi,
        }
    }

    /// The shape of this answer.
    #[verifier::when_used_as_spec(spec_kind)]
    pub fn kind(&self) -> (kind: AnswerKind)
        ensures
            kind == self.spec_kind(),
    {
        match self {
            Answer::Done => AnswerKind::Done,
            Answer::ModulationParams(_) => AnswerKind::ModulationParams,
            Answer::PacketParams(_) => AnswerKind::PacketParams,
            Answer::Irq { .. } => AnswerKind::Irq,
            Answer::PayloadLength(_) => AnswerKind::PayloadLength,
            Answer::PacketStatus(_) => AnswerKind::PacketStatus,
            Answer::Rssi(_) => AnswerKind::Rssi,
        }
    }
}

impl Command {
    /// The shape of the answer that this call yields when it succeeds.
    pub open spec fn yields(self) -> AnswerKind {
        match self {
            Command::CreateModulationParams { .. } => AnswerKind::ModulationParams,
            Command::CreatePacketParams { .. } => AnswerKind::PacketParams,
            Command::ProcessIrqEvent { .. } | Command::GetIrqState { .. } => AnswerKind::Irq,
            Command::GetRxPayload(_) => AnswerKind::PayloadLength,
            Command::GetRxPacketStatus => AnswerKind::PacketStatus,
            Command::GetRssi => AnswerKind::Rssi,
            _ => AnswerKind::Done,
        }
    }

    /// Whether `reply` can be what the radio returns from this call: a
    /// failure, or an answer of the shape that the call yields. An interrupt
    /// that is processed for channel activity reports the detection as done.
    pub open spec fn may_return(self, reply: Result<Answer, RadioError>) -> bool {
        reply matches Ok(answer) ==> {
            &&& answer.spec_kind() == self.yields()
            &&& self matches Command::ProcessIrqEvent { cad_activity: true, .. } ==> answer
                matches Answer::Irq { state: Some(IrqState::Done), .. }
        }
    }
}

/// What an operation of the controller yielded when it succeeded.
#[derive(Clone, Copy, Debug, PartialEq, Eq, Structural)]
pub enum Output {
    /// Nothing beyond success.
    Done,
    /// Modulation parameters for a communication channel.
    ModulationParams(ModulationParams),
    /// Packet parameters for an operation.
    PacketParams(PacketParams),
    /// The interpreted interrupt flags.
    Irq(Option<IrqState>),
    /// The length of a received payload and its signal quality.
    Received(u8, PacketStatus),
    /// The signal strength of the channel.
    Rssi(i16),
    /// Whether a channel activity detection found activity.
    ActivityDetected(bool),
}

/// The controller's move in the dialogue.
#[derive(Clone, Copy, Debug, PartialEq, Eq)]
pub enum Step {
    /// Make this call on the radio and hand back what it returned.
    Issue(Command),
    /// The operation has ended with this result.
    Finish(Result<Output, RadioError>),
}

} // verus!
