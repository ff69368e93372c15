use lora_phy::command::{Answer, AnswerKind};
use lora_phy::mod_params::{
    Bandwidth, CodingRate, ModulationParams, PacketParams, PacketStatus, RadioError, RadioMode,
    SpreadingFactor, MAX_PAYLOAD_LENGTH,
};
use lora_phy::stage::{ListenJob, Prepared, RxJob, TxJob, WaveJob};
use lora_phy::RxMode;

fn framing() -> PacketParams {
    PacketParams {
        preamble_length: 8,
        implicit_header: true,
        payload_length: 3,
        crc_on: false,
        iq_inverted: true,
    }
}

fn modulation(frequency_in_hz: u32) -> ModulationParams {
    ModulationParams {
        spreading_factor: SpreadingFactor::_10,
        bandwidth: Bandwidth::_500KHz,
        coding_rate: CodingRate::_4_7,
        frequency_in_hz,
    }
}

#[test]
fn set_payload_length_takes_lengths_up_to_the_limit() {
    assert_eq!(MAX_PAYLOAD_LENGTH, 255);
    for length in [0usize, 1, 128, 255] {
        let mut params = framing();
        assert_eq!(params.set_payload_length(length), Ok(()));
        assert_eq!(params, PacketParams { payload_length: length as u8, ..framing() });
    }
}

#[test]
fn set_payload_length_refuses_longer_payloads() {
    for length in [256usize, 300, usize::MAX] {
        let mut params = framing();
        assert_eq!(
            params.set_payload_length(length),
            Err(RadioError::PayloadSizeUnexpected(length))
        );
        assert_eq!(params, framing());
    }
}

#[test]
fn answers_know_their_kind() {
    let quality = PacketStatus { rssi: -1, snr: 2 };
    assert_eq!(Answer::Done.kind(), AnswerKind::Done);
    assert_eq!(Answer::ModulationParams(modulation(1)).kind(), AnswerKind::ModulationParams);
    assert_eq!(Answer::PacketParams(framing()).kind(), AnswerKind::PacketParams);
    assert_eq!(
        Answer::Irq { state: None, cad_activity_detected: true }.kind(),
        AnswerKind::Irq
    );
    assert_eq!(Answer::PayloadLength(9).kind(), AnswerKind::PayloadLength);
    assert_eq!(Answer::PacketStatus(quality).kind(), AnswerKind::PacketStatus);
    assert_eq!(Answer::Rssi(-3).kind(), AnswerKind::Rssi);
}

#[test]
fn a_prepared_operation_knows_its_frequency() {
    let tx = TxJob {
        mdltn_params: modulation(11),
        tx_pkt_params: framing(),
        output_power: 2,
        length: 4,
    };
    let rx = RxJob {
        listen_mode: RxMode::Single,
        mdltn_params: modulation(22),
        rx_pkt_params: framing(),
    };
    let listen = ListenJob { frequency_in_hz: 33, bandwidth: Bandwidth::_62KHz };
    let wave = WaveJob { mdltn_params: modulation(55), output_power: -1 };
    assert_eq!(Prepared::Tx(tx).frequency(), 11);
    assert_eq!(Prepared::Rx(rx).frequency(), 22);
    assert_eq!(Prepared::Listen(listen).frequency(), 33);
    assert_eq!(Prepared::Cad(modulation(44)).frequency(), 44);
    assert_eq!(Prepared::Wave(wave).frequency(), 55);
}

#[test]
fn a_listen_mode_is_a_receive_mode() {
    assert_eq!(RadioMode::from(RxMode::Single), RadioMode::Receive(RxMode::Single));
    assert_eq!(RadioMode::from(RxMode::Continuous), RadioMode::Receive(RxMode::Continuous));
    let mode: RadioMode = RxMode::Continuous.into();
    assert_ne!(mode, RadioMode::Receive(RxMode::Single));
}
