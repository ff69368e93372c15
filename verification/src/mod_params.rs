//! Parameters shared by the controller, its callers and the radio backends.

use vstd::prelude::*;

verus! {

/// Everything that can go wrong while driving a radio.
#[derive(Clone, Copy, Debug, PartialEq, Eq, Structural)]
pub enum RadioError {
    /// The bus transfer to or from the radio failed.
    SPI,
    /// The reset line could not be driven.
    Reset,
    /// The radio stayed busy for longer than it may.
    Busy,
    /// The interrupt line could not be awaited or read.
    Irq,
    /// The radio reported a failed command, with its status code.
    OpError(u8),
    /// The operation was invoked in a mode that does not allow it.
    InvalidRadioMode,
    /// A payload of this many bytes cannot be described by packet parameters.
    PayloadSizeUnexpected(usize),
    /// The receiving buffer (first) is shorter than the received payload (second).
    PayloadSizeMismatch(usize, usize),
    /// The radio does not offer the requested spreading factor.
    UnavailableSpreadingFactor,
    /// The radio does not offer the requested bandwidth.
    UnavailableBandwidth,
    /// The radio does not offer the requested coding rate.
    UnavailableCodingRate,
    /// The requested bandwidth cannot be used at the requested frequency.
    InvalidBandwidthForFrequency,
    /// The requested output power cannot be produced at the requested frequency.
    InvalidOutputPowerForFrequency,
    /// The radio gave up on a transmission.
    TransmitTimeout,
    /// The radio gave up on a reception.
    ReceiveTimeout,
    /// A packet arrived with an invalid header.
    HeaderError,
    /// A packet arrived with a failed checksum.
    CRCErrorOnReceive,
}

/// Number of chips per symbol, as a power of two.
#[allow(non_camel_case_types)]
#[derive(Clone, Copy, Debug, PartialEq, Eq, Structural)]
pub enum SpreadingFactor {
    _5,
    _6,
    _7,
    _8,
    _9,
    _10,
    _11,
    _12,
}

/// Width of the channel.
#[allow(non_camel_case_types)]
#[derive(Clone, Copy, Debug, PartialEq, Eq, Structural)]
pub enum Bandwidth {
    _7KHz,
    _10KHz,
    _15KHz,
    _20KHz,
    _31KHz,
    _41KHz,
    _62KHz,
    _125KHz,
    _250KHz,
    _500KHz,
}

/// Ratio of payload bits to transmitted bits.
#[allow(non_camel_case_types)]
#[derive(Clone, Copy, Debug, PartialEq, Eq, Structural)]
pub enum CodingRate {
    _4_5,
    _4_6,
    _4_7,
    _4_8,
}

/// How long a receive operation keeps the receiver open.
#[derive(Clone, Copy, Debug, PartialEq, Eq, Structural)]
pub enum RxMode {
    /// Receive one packet, then stop.
    Single,
    /// Keep receiving until told otherwise.
    Continuous,
}

/// The operating state of the radio, as the controller tracks it.
#[derive(Clone, Copy, Debug, PartialEq, Eq, Structural)]
pub enum RadioMode {
    /// Lowest power; configuration may have been lost.
    Sleep,
    /// Idle and ready for configuration.
    Standby,
    /// Configured for, or busy with, a transmission.
    Transmit,
    /// Configured for, or busy with, a reception.
    Receive(RxMode),
    /// Receiving only to sample the signal strength of a channel.
    Listen,
    /// Configured for, or busy with, a channel activity detection.
    ChannelActivityDetection,
}

impl From<RxMode> for RadioMode {
    /// The mode of a radio that receives in the given listen mode.
    fn from(rx_mode: RxMode) -> (radio_mode: RadioMode) {
        RadioMode::Receive(rx_mode)
    }
}

impl vstd::std_specs::convert::FromSpecImpl<RxMode> for RadioMode {
    open spec fn obeys_from_spec() -> bool {
        true
    }

    open spec fn from_spec(rx_mode: RxMode) -> RadioMode {
        RadioMode::Receive(rx_mode)
    }
}

/// Modulation of one communication channel.
#[derive(Clone, Copy, Debug, PartialEq, Eq, Structural)]
pub struct ModulationParams {
    pub spreading_factor: SpreadingFactor,
    pub bandwidth: Bandwidth,
    pub coding_rate: CodingRate,
    pub frequency_in_hz: u32,
}

/// Framing of the packets of one operation.
#[derive(Clone, Copy, Debug, PartialEq, Eq, Structural)]
pub struct PacketParams {
    pub preamble_length: u16,
    pub implicit_header: bool,
    pub payload_length: u8,
    pub crc_on: bool,
    pub iq_inverted: bool,
}

/// The longest payload that packet parameters can describe.
pub const MAX_PAYLOAD_LENGTH: usize = 255;

impl PacketParams {
    /// These parameters with their payload length replaced.
    pub open spec fn with_payload_length(self, payload_length: u8) -> PacketParams {
        PacketParams { payload_length, ..self }
    }

    /// Records the length of the payload that is about to be sent. A length
    /// beyond [`MAX_PAYLOAD_LENGTH`] is refused and leaves the parameters as
    /// they were.
    pub fn set_payload_length(&mut self, payload_length: usize) -> (result: Result<(), RadioError>)
        ensures
            payload_length <= MAX_PAYLOAD_LENGTH ==> result == Ok::<(), RadioError>(())
                && *final(self) == old(self).with_payload_length(payload_length as u8),
            payload_length > MAX_PAYLOAD_LENGTH ==> result == Err::<(), RadioError>(
                RadioError::PayloadSizeUnexpected(payload_length),
            ) && *final(self) == *old(self),
    {
        if payload_length > MAX_PAYLOAD_LENGTH {
            return Err(RadioError::PayloadSizeUnexpected(payload_length));
        }
        self.payload_length = payload_length as u8;
        Ok(())
    }
}

/// Signal quality of a received packet.
#[derive(Clone, Copy, Debug, PartialEq, Eq, Structural)]
pub struct PacketStatus {
    pub rssi: i16,
    pub snr: i16,
}

/// What the radio's interrupt flags say about the operation under way.
#[derive(Clone, Copy, Debug, PartialEq, Eq, Structural)]
pub enum IrqState {
    /// A preamble was detected; the packet itself is still to come.
    PreambleReceived,
    /// The operation has run to its end.
    Done,
}

} // verus!
