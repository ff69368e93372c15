//! Chip-agnostic physical-layer control of LoRa radio transceivers.
//!
//! The controller in this crate never touches a bus or an interrupt line.
//! Every operation is carried out as a dialogue: the controller names the
//! next call to make on the radio, the caller makes it and hands the radio's
//! answer back, until the controller reports how the operation ended.
//!
//! - [`mod_params`] holds the parameters that callers and radios exchange.
//! - [`command`] holds the vocabulary of the dialogue.
//! - [`controller`] holds the executable controller, [`LoRa`].
//! - [`model`] specifies, as pure functions, which call the controller asks
//!   for in which state; the controller is proved to compute them.
//! - [`transcript`] derives from the model what each operation does from its
//!   first call to its last, and [`laws`] what holds of all of them.
//! - [`device`] holds what a LoRaWAN device exchanges with its application.

pub mod command;
pub mod controller;
pub mod device;
pub mod laws;
pub mod mod_params;
pub mod model;
pub mod stage;
pub mod transcript;

pub use crate::controller::LoRa;
pub use crate::mod_params::RxMode;
