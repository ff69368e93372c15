//! The points at which an operation waits for the radio.
//!
//! A stage names the call whose answer the controller is waiting for, and
//! carries whatever the rest of the operation will need.

use vstd::prelude::*;
use crate::mod_params::{Bandwidth, ModulationParams, PacketParams, RadioError, RxMode};

verus! {

/// Calls of the cold-start initialisation.
#[derive(Clone, Copy, Debug, PartialEq, Eq, Structural)]
pub enum ColdStart {
    InitLora,
    TxPower,
    IrqParams,
}

/// Calls of the preparation that every channel-using operation starts with.
#[derive(Clone, Copy, Debug, PartialEq, Eq, Structural)]
pub enum Modem {
    Ready,
    Standby,
    Cold(ColdStart),
    Calibrate,
}

/// What the preparation of a transmission was asked to do.
#[derive(Clone, Copy, Debug, PartialEq, Eq, Structural)]
pub struct TxJob {
    pub mdltn_params: ModulationParams,
    pub tx_pkt_params: PacketParams,
    pub output_power: i32,
    /// The length of the payload to send.
    pub length: usize,
}

/// What the preparation of a reception was asked to do.
#[derive(Clone, Copy, Debug, PartialEq, Eq, Structural)]
pub struct RxJob {
    pub listen_mode: RxMode,
    pub mdltn_params: ModulationParams,
    pub rx_pkt_params: PacketParams,
}

/// What a signal-strength measurement was asked to do.
#[derive(Clone, Copy, Debug, PartialEq, Eq, Structural)]
pub struct ListenJob {
    pub frequency_in_hz: u32,
    pub bandwidth: Bandwidth,
}

/// What a carrier test was asked to do.
#[derive(Clone, Copy, Debug, PartialEq, Eq, Structural)]
pub struct WaveJob {
    pub mdltn_params: ModulationParams,
    pub output_power: i32,
}

/// The operation that a modem preparation is part of.
#[derive(Clone, Copy, Debug, PartialEq, Eq, Structural)]
pub enum Prepared {
    Tx(TxJob),
    Rx(RxJob),
    Listen(ListenJob),
    Cad(ModulationParams),
    Wave(WaveJob),
}

impl Prepared {
    /// The frequency, in Hz, that the operation is about to use.
    pub open spec fn spec_frequency(&self) -> u32 {
        match *self {
            Prepared::Tx(job) => job.mdltn_params.frequency_in_hz,
            Prepared::Rx(job) => job.mdltn_params.frequency_in_hz,
            Prepared::Listen(job) => job.frequency_in_hz,
            Prepared::Cad(mdltn_params) => mdltn_params.frequency_in_hz,
            Prepared::Wave(job) => job.mdltn_params.frequency_in_hz,
        }
    }

    /// The frequency, in Hz, that the operation is about to use.
    #[verifier::when_used_as_spec(spec_frequency)]
    pub fn frequency(&self) -> (frequency_in_hz: u32)
        ensures
            frequency_in_hz == self.spec_frequency(),
    {
        match self {
            Prepared::Tx(job) => job.mdltn_params.frequency_in_hz,
            Prepared::Rx(job) => job.mdltn_params.frequency_in_hz,
            Prepared::Listen(job) => job.frequency_in_hz,
            Prepared::Cad(mdltn_params) => mdltn_params.frequency_in_hz,
            Prepared::Wave(job) => job.mdltn_params.frequency_in_hz,
        }
    }
}

/// Calls of an initialisation.
#[derive(Clone, Copy, Debug, PartialEq, Eq, Structural)]
pub enum InitStage {
    Reset,
    Ready,
    Standby,
    Cold(ColdStart),
}

/// Calls of a transition to sleep.
#[derive(Clone, Copy, Debug, PartialEq, Eq, Structural)]
pub enum SleepStage {
    Ready,
    Sleep,
}

/// Calls that configure a transmission, once the modem is prepared.
#[derive(Clone, Copy, Debug, PartialEq, Eq, Structural)]
pub enum TxSetup {
    Modulation,
    Power,
    Ready,
    Standby,
    Packet,
    Channel,
    Payload,
    Irq,
}

/// Calls that carry out a started transmission or channel activity detection.
#[derive(Clone, Copy, Debug, PartialEq, Eq, Structural)]
pub enum Execution {
    Start,
    Wait,
    Process,
}

/// Calls that configure a reception, once the modem is prepared.
#[derive(Clone, Copy, Debug, PartialEq, Eq, Structural)]
pub enum RxSetup {
    Modulation,
    Packet,
    Channel,
    Irq,
}

/// Calls that move a running reception to another frequency.
#[derive(Clone, Copy, Debug, PartialEq, Eq, Structural)]
pub enum Retune {
    Standby,
    Channel,
    Rx,
}

/// Calls that wait for a reception to end and fetch what was received.
#[derive(Clone, Copy, Debug, PartialEq, Eq, Structural)]
pub enum Completion {
    Process,
    Wait,
    Payload,
    /// Holds the received length while the signal quality is read.
    Status(u8),
}

/// Calls that start a signal-strength measurement, once the modem is prepared.
#[derive(Clone, Copy, Debug, PartialEq, Eq, Structural)]
pub enum ListenSetup {
    Channel,
    Create,
    Modulation,
    Rx,
}

/// Calls that configure a channel activity detection, once the modem is prepared.
#[derive(Clone, Copy, Debug, PartialEq, Eq, Structural)]
pub enum CadSetup {
    Modulation,
    Channel,
    Irq,
}

/// Calls that start an unmodulated carrier, once the modem is prepared.
#[derive(Clone, Copy, Debug, PartialEq, Eq, Structural)]
pub enum WaveSetup {
    Create,
    Packet,
    Modulation,
    Power,
    Ready,
    Standby,
    Channel,
    Irq,
    Wave,
}

/// Calls that bring the radio back to standby after a failed interrupt.
#[derive(Clone, Copy, Debug, PartialEq, Eq, Structural)]
pub enum Recovery {
    Ready,
    Standby,
}

/// Where the controller stands in the operation under way.
#[derive(Clone, Copy, Debug, PartialEq, Eq, Structural)]
pub enum Stage {
    /// No operation is under way.
    Idle,
    WaitForIrq,
    ProcessIrqEvent,
    CreateModulationParams,
    CreatePacketParams,
    EnterStandby,
    StartRx,
    GetIrqState,
    ClearIrqStatus,
    GetRssi,
    Init(InitStage),
    /// Holds whether a warm start was asked for.
    Sleep(SleepStage, bool),
    Modem(Modem, Prepared),
    PrepareForTx(TxSetup, TxJob),
    Tx(Execution),
    PrepareForRx(RxSetup, RxJob),
    /// Holds the new frequency and the listen mode to resume with.
    RxSwitchChannel(Retune, u32, RxMode),
    /// A reception is being started and will then be waited for.
    Rx(PacketParams),
    CompleteRx(Completion, PacketParams),
    Listen(ListenSetup, ListenJob),
    PrepareForCad(CadSetup, ModulationParams),
    Cad(Execution),
    ContinuousWave(WaveSetup, WaveJob),
    /// Holds the failure that made the recovery necessary.
    Recover(Recovery, RadioError),
}

} // verus!
