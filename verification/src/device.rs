//! What a LoRaWAN device built on the controller exchanges with its
//! application.

use vstd::prelude::*;

verus! {

/// `heapless::Vec`, a vector of bounded length that lives where it is
/// declared. Nothing is claimed of it.
#[verifier::external_type_specification]
#[verifier::external_body]
#[verifier::reject_recursive_types(T)]
pub struct ExHeaplessVec<T, const N: usize>(heapless::Vec<T, N>);

/// `lorawan::keys::DevEui`, the identifier of a device. Nothing is claimed of it.
#[verifier::external_type_specification]
#[verifier::external_body]
pub struct ExDevEui(lorawan::keys::DevEui);

/// `lorawan::keys::AppEui`, the identifier of an application. Nothing is
/// claimed of it.
#[verifier::external_type_specification]
#[verifier::external_body]
pub struct ExAppEui(lorawan::keys::AppEui);

/// `lorawan::keys::AppKey`, the root key of a device. Nothing is claimed of it.
#[verifier::external_type_specification]
#[verifier::external_body]
pub struct ExAppKey(lorawan::keys::AppKey);

/// `lorawan::keys::NewSKey`, the network session key. Nothing is claimed of it.
#[verifier::external_type_specification]
#[verifier::external_body]
pub struct ExNewSKey(lorawan::keys::NewSKey);

/// `lorawan::keys::AppSKey`, the application session key. Nothing is claimed
/// of it.
#[verifier::external_type_specification]
#[verifier::external_body]
pub struct ExAppSKey(lorawan::keys::AppSKey);

/// The application payload and the port of a downlink message.
pub struct Downlink {
    pub data: heapless::Vec<u8, 256>,
    pub fport: u8,
}

/// Board-specific tuning of the receive windows.
pub trait Timings {
    /// How many milliseconds before a receive window is due its
    /// configuration should begin.
    fn get_rx_window_offset_ms(&self) -> i32;

    /// How many milliseconds a receive window is left open.
    fn get_rx_window_duration_ms(&self) -> u32;
}

/// How a device joins its network: over the air, or by personalisation.
#[derive(Debug, Clone, Copy, PartialEq, Eq)]
pub enum JoinMode {
    OTAA {
        deveui: lorawan::keys::DevEui,
        appeui: lorawan::keys::AppEui,
        appkey: lorawan::keys::AppKey,
    },
    ABP {
        nwkskey: lorawan::keys::NewSKey,
        appskey: lorawan::keys::AppSKey,
        /// The four bytes of the device address.
        devaddr: [u8; 4],
    },
}

} // verus!
