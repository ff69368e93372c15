use lora_phy::command::{Answer, Command, Output, Step};
use lora_phy::mod_params::{
    Bandwidth, CodingRate, IrqState, ModulationParams, PacketParams, PacketStatus, RadioError,
    RadioMode, SpreadingFactor,
};
use lora_phy::stage::Stage;
use lora_phy::{LoRa, RxMode};

type Reply = Result<Answer, RadioError>;

const FREQUENCY: u32 = 868_100_000;

fn modulation() -> ModulationParams {
    ModulationParams {
        spreading_factor: SpreadingFactor::_7,
        bandwidth: Bandwidth::_125KHz,
        coding_rate: CodingRate::_4_5,
        frequency_in_hz: FREQUENCY,
    }
}

fn framing(payload_length: u8) -> PacketParams {
    PacketParams {
        preamble_length: 8,
        implicit_header: false,
        payload_length,
        crc_on: true,
        iq_inverted: false,
    }
}

fn status() -> PacketStatus {
    PacketStatus { rssi: -97, snr: 6 }
}

/// A radio on which every call succeeds and every interrupt reports the end
/// of the operation.
fn obliging(command: &Command) -> Reply {
    Ok(match command {
        Command::CreateModulationParams {
            spreading_factor,
            bandwidth,
            coding_rate,
            frequency_in_hz,
        } => Answer::ModulationParams(ModulationParams {
            spreading_factor: *spreading_factor,
            bandwidth: *bandwidth,
            coding_rate: *coding_rate,
            frequency_in_hz: *frequency_in_hz,
        }),
        Command::CreatePacketParams {
            preamble_length,
            implicit_header,
            payload_length,
            crc_on,
            iq_inverted,
            ..
        } => Answer::PacketParams(PacketParams {
            preamble_length: *preamble_length,
            implicit_header: *implicit_header,
            payload_length: *payload_length,
            crc_on: *crc_on,
            iq_inverted: *iq_inverted,
        }),
        Command::ProcessIrqEvent { .. } | Command::GetIrqState { .. } => {
            Answer::Irq { state: Some(IrqState::Done), cad_activity_detected: false }
        }
        Command::GetRxPayload(_) => Answer::PayloadLength(5),
        Command::GetRxPacketStatus => Answer::PacketStatus(status()),
        Command::GetRssi => Answer::Rssi(-80),
        _ => Answer::Done,
    })
}

/// Carries an operation to its end on a radio that answers as `radio` says.
fn drive(
    lora: &mut LoRa,
    mut step: Step,
    mut radio: impl FnMut(&Command) -> Reply,
) -> (Vec<Command>, Result<Output, RadioError>) {
    let mut issued = Vec::new();
    for _ in 0..64 {
        match step {
            Step::Finish(result) => {
                assert!(lora.is_idle());
                return (issued, result);
            }
            Step::Issue(command) => {
                assert!(!lora.is_idle());
                let reply = radio(&command);
                assert!(lora.admits(&reply), "{:?} does not answer {:?}", reply, command);
                issued.push(command);
                step = lora.advance(reply);
            }
        }
    }
    panic!("the operation did not end: {:?}", issued);
}

/// Answers the calls of an operation with `replies`, in order, and returns
/// the calls made and the controller's last move.
fn feed(lora: &mut LoRa, mut step: Step, replies: &[Reply]) -> (Vec<Command>, Step) {
    let mut issued = Vec::new();
    for reply in replies {
        match step {
            Step::Finish(_) => panic!("the operation ended after {:?}", issued),
            Step::Issue(command) => {
                assert!(lora.admits(reply), "{:?} does not answer {:?}", reply, command);
                issued.push(command);
                step = lora.advance(*reply);
            }
        }
    }
    (issued, step)
}

fn failing_at(position: usize, cause: RadioError) -> impl FnMut(&Command) -> Reply {
    let mut count = 0;
    move |command| {
        count += 1;
        if count == position {
            Err(cause)
        } else {
            obliging(command)
        }
    }
}

/// A controller whose radio has been initialised.
fn initialised() -> LoRa {
    let (mut lora, step) = LoRa::new(true);
    let (_, result) = drive(&mut lora, step, obliging);
    assert_eq!(result, Ok(Output::Done));
    lora
}

/// A controller whose radio has been initialised and calibrated.
fn settled() -> LoRa {
    let mut lora = initialised();
    let step = lora.prepare_for_cad(&modulation());
    let (_, result) = drive(&mut lora, step, obliging);
    assert_eq!(result, Ok(Output::Done));
    let step = lora.enter_standby();
    let (_, result) = drive(&mut lora, step, obliging);
    assert_eq!(result, Ok(Output::Done));
    assert_eq!(lora.radio_mode(), RadioMode::Standby);
    assert!(!lora.cold_start());
    assert!(!lora.calibrate_image());
    lora
}

fn receiving(listen_mode: RxMode) -> LoRa {
    let mut lora = settled();
    let step = lora.prepare_for_rx(listen_mode, &modulation(), &framing(32));
    let (_, result) = drive(&mut lora, step, obliging);
    assert_eq!(result, Ok(Output::Done));
    assert_eq!(lora.radio_mode(), RadioMode::Receive(listen_mode));
    lora
}

fn detecting() -> LoRa {
    let mut lora = settled();
    let step = lora.prepare_for_cad(&modulation());
    let (_, result) = drive(&mut lora, step, obliging);
    assert_eq!(result, Ok(Output::Done));
    assert_eq!(lora.radio_mode(), RadioMode::ChannelActivityDetection);
    lora
}

fn transmitting() -> LoRa {
    let mut lora = settled();
    let step = lora.prepare_for_tx(&modulation(), &framing(0), 14, b"hello");
    let (_, result) = drive(&mut lora, step, obliging);
    assert_eq!(result, Ok(Output::Done));
    assert_eq!(lora.radio_mode(), RadioMode::Transmit);
    lora
}

fn irq(state: Option<IrqState>) -> Reply {
    Ok(Answer::Irq { state, cad_activity_detected: false })
}

fn process_irq(radio_mode: RadioMode, cad_activity: bool) -> Command {
    Command::ProcessIrqEvent { radio_mode, cad_activity, is_blocking: true }
}

#[test]
fn a_new_controller_starts_by_resetting_the_radio() {
    let (lora, step) = LoRa::with_syncword(0x21);
    assert_eq!(step, Step::Issue(Command::Reset));
    assert_eq!(lora.radio_mode(), RadioMode::Sleep);
    assert_eq!(lora.sync_word(), 0x21);
    assert!(lora.cold_start());
    assert!(lora.calibrate_image());
    assert!(!lora.is_idle());
}

#[test]
fn init_resets_then_cold_starts() {
    let (mut lora, step) = LoRa::with_syncword(0x21);
    let (issued, result) = drive(&mut lora, step, obliging);
    assert_eq!(result, Ok(Output::Done));
    assert_eq!(
        issued,
        vec![
            Command::Reset,
            Command::EnsureReady(RadioMode::Sleep),
            Command::SetStandby,
            Command::InitLora(0x21),
            Command::SetTxPowerAndRampTime { output_power: 0, mdltn_params: None, is_tx: false },
            Command::SetIrqParams(Some(RadioMode::Standby)),
        ]
    );
    assert_eq!(lora.radio_mode(), RadioMode::Standby);
    assert!(!lora.cold_start());
    assert!(lora.calibrate_image());
}

#[test]
fn the_network_kind_selects_the_sync_word() {
    let (mut public, step) = LoRa::new(true);
    assert_eq!(public.sync_word(), 0x34);
    let (issued, _) = drive(&mut public, step, obliging);
    assert_eq!(issued[3], Command::InitLora(0x34));

    let (mut private, step) = LoRa::new(false);
    assert_eq!(private.sync_word(), 0x12);
    let (issued, _) = drive(&mut private, step, obliging);
    assert_eq!(issued[3], Command::InitLora(0x12));
}

#[test]
fn a_failed_init_leaves_the_cold_start_owed() {
    for position in 1..=6 {
        let (mut lora, step) = LoRa::new(true);
        let (issued, result) = drive(&mut lora, step, failing_at(position, RadioError::SPI));
        assert_eq!(result, Err(RadioError::SPI));
        assert_eq!(issued.len(), position);
        assert!(lora.cold_start());
        let expected = if position <= 3 { RadioMode::Sleep } else { RadioMode::Standby };
        assert_eq!(lora.radio_mode(), expected);
    }
}

#[test]
fn init_may_replace_an_operation_under_way() {
    let mut lora = transmitting();
    let step = lora.tx();
    assert_eq!(step, Step::Issue(Command::DoTx));
    let step = lora.init();
    assert_eq!(step, Step::Issue(Command::Reset));
    assert!(lora.cold_start());
    let (issued, result) = drive(&mut lora, step, obliging);
    assert_eq!(result, Ok(Output::Done));
    assert_eq!(issued[1], Command::EnsureReady(RadioMode::Transmit));
    assert_eq!(lora.radio_mode(), RadioMode::Standby);
}

#[test]
fn transmit_scenario() {
    let (mut lora, step) = LoRa::new(true);
    let (_, result) = drive(&mut lora, step, obliging);
    assert_eq!(result, Ok(Output::Done));

    let step = lora.create_modulation_params(
        SpreadingFactor::_7,
        Bandwidth::_125KHz,
        CodingRate::_4_5,
        868_100_000,
    );
    let (issued, result) = drive(&mut lora, step, obliging);
    assert_eq!(
        issued,
        vec![Command::CreateModulationParams {
            spreading_factor: SpreadingFactor::_7,
            bandwidth: Bandwidth::_125KHz,
            coding_rate: CodingRate::_4_5,
            frequency_in_hz: 868_100_000,
        }]
    );
    let params = match result {
        Ok(Output::ModulationParams(params)) => params,
        other => panic!("no modulation parameters: {:?}", other),
    };
    assert_eq!(params, modulation());

    let step = lora.create_tx_packet_params(8, false, true, false, &params);
    let (issued, result) = drive(&mut lora, step, obliging);
    assert_eq!(
        issued,
        vec![Command::CreatePacketParams {
            preamble_length: 8,
            implicit_header: false,
            payload_length: 0,
            crc_on: true,
            iq_inverted: false,
            modulation_params: params,
        }]
    );
    let pkt = match result {
        Ok(Output::PacketParams(pkt)) => pkt,
        other => panic!("no packet parameters: {:?}", other),
    };
    assert_eq!(pkt, framing(0));

    let step = lora.prepare_for_tx(&params, &pkt, 14, b"hello");
    let (issued, result) = drive(&mut lora, step, obliging);
    assert_eq!(result, Ok(Output::Done));
    assert_eq!(
        issued,
        vec![
            Command::EnsureReady(RadioMode::Standby),
            Command::CalibrateImage(868_100_000),
            Command::SetModulationParams(params),
            Command::SetTxPowerAndRampTime {
                output_power: 14,
                mdltn_params: Some(params),
                is_tx: true,
            },
            Command::EnsureReady(RadioMode::Standby),
            Command::SetPacketParams(framing(5)),
            Command::SetChannel(868_100_000),
            Command::SetPayload,
            Command::SetIrqParams(Some(RadioMode::Transmit)),
        ]
    );
    assert_eq!(lora.radio_mode(), RadioMode::Transmit);

    let step = lora.tx();
    let (issued, result) = drive(&mut lora, step, obliging);
    assert_eq!(result, Ok(Output::Done));
    assert_eq!(
        issued,
        vec![Command::DoTx, Command::AwaitIrq, process_irq(RadioMode::Transmit, false)]
    );
    assert_eq!(lora.radio_mode(), RadioMode::Standby);
}

#[test]
fn tx_waits_until_an_interrupt_reports_an_event() {
    let mut lora = transmitting();
    let step = lora.tx();
    let (issued, step) = feed(
        &mut lora,
        step,
        &[Ok(Answer::Done), Ok(Answer::Done), irq(None), Ok(Answer::Done), irq(None)],
    );
    assert_eq!(
        issued,
        vec![
            Command::DoTx,
            Command::AwaitIrq,
            process_irq(RadioMode::Transmit, false),
            Command::AwaitIrq,
            process_irq(RadioMode::Transmit, false),
        ]
    );
    assert_eq!(step, Step::Issue(Command::AwaitIrq));
    assert_eq!(lora.radio_mode(), RadioMode::Transmit);
    let (_, step) = feed(&mut lora, step, &[Ok(Answer::Done), irq(Some(IrqState::PreambleReceived))]);
    assert_eq!(step, Step::Finish(Ok(Output::Done)));
    assert_eq!(lora.radio_mode(), RadioMode::Standby);
}

#[test]
fn tx_returns_to_standby_when_the_interrupt_fails() {
    let mut lora = transmitting();
    let step = lora.tx();
    let (issued, result) = drive(&mut lora, step, failing_at(3, RadioError::TransmitTimeout));
    assert_eq!(result, Err(RadioError::TransmitTimeout));
    assert_eq!(
        issued,
        vec![
            Command::DoTx,
            Command::AwaitIrq,
            process_irq(RadioMode::Transmit, false),
            Command::EnsureReady(RadioMode::Transmit),
            Command::SetStandby,
        ]
    );
    assert_eq!(lora.radio_mode(), RadioMode::Standby);
}

#[test]
fn tx_reports_a_failed_recovery_and_keeps_the_mode() {
    let mut lora = transmitting();
    let step = lora.tx();
    let (issued, step) = feed(
        &mut lora,
        step,
        &[Ok(Answer::Done), Ok(Answer::Done), Err(RadioError::TransmitTimeout), Err(RadioError::Busy)],
    );
    assert_eq!(issued.len(), 4);
    assert_eq!(step, Step::Finish(Err(RadioError::Busy)));
    assert_eq!(lora.radio_mode(), RadioMode::Transmit);
    assert!(lora.is_idle());

    let step = lora.tx();
    let (_, step) = feed(
        &mut lora,
        step,
        &[
            Ok(Answer::Done),
            Ok(Answer::Done),
            Err(RadioError::TransmitTimeout),
            Ok(Answer::Done),
            Err(RadioError::SPI),
        ],
    );
    assert_eq!(step, Step::Finish(Err(RadioError::SPI)));
    assert_eq!(lora.radio_mode(), RadioMode::Transmit);
}

#[test]
fn tx_does_not_recover_from_a_failed_start_or_wait() {
    for position in 1..=2 {
        let mut lora = transmitting();
        let step = lora.tx();
        let (issued, result) = drive(&mut lora, step, failing_at(position, RadioError::Irq));
        assert_eq!(result, Err(RadioError::Irq));
        assert_eq!(issued.len(), position);
        assert_eq!(lora.radio_mode(), RadioMode::Transmit);
    }
}

#[test]
fn operations_are_refused_outside_their_mode() {
    let modes: Vec<LoRa> =
        vec![settled(), transmitting(), receiving(RxMode::Single), detecting()];
    for mut lora in modes {
        let mode = lora.radio_mode();
        let refused = Step::Finish(Err(RadioError::InvalidRadioMode));
        if mode != RadioMode::Transmit {
            assert_eq!(lora.tx(), refused);
        }
        if mode != RadioMode::Receive(RxMode::Single) {
            assert_eq!(lora.start_rx(), refused);
            assert_eq!(lora.complete_rx(&framing(32)), refused);
            assert_eq!(lora.rx(&framing(32)), refused);
            assert_eq!(lora.get_rx_result(&framing(32)), refused);
            assert_eq!(lora.rx_switch_channel(FREQUENCY), refused);
        }
        if mode != RadioMode::ChannelActivityDetection {
            assert_eq!(lora.cad(&modulation()), refused);
        }
        assert!(lora.is_idle());
        assert_eq!(lora.radio_mode(), mode);
        assert!(!lora.cold_start());
        assert!(!lora.calibrate_image());
    }
}

#[test]
fn prepare_for_rx_programs_the_reception() {
    let mut lora = settled();
    let step = lora.prepare_for_rx(RxMode::Continuous, &modulation(), &framing(32));
    let (issued, result) = drive(&mut lora, step, obliging);
    assert_eq!(result, Ok(Output::Done));
    assert_eq!(
        issued,
        vec![
            Command::EnsureReady(RadioMode::Standby),
            Command::SetModulationParams(modulation()),
            Command::SetPacketParams(framing(32)),
            Command::SetChannel(FREQUENCY),
            Command::SetIrqParams(Some(RadioMode::Receive(RxMode::Continuous))),
        ]
    );
    assert_eq!(lora.radio_mode(), RadioMode::Receive(RxMode::Continuous));
}

#[test]
fn a_failed_interrupt_spares_a_continuous_reception() {
    let mut lora = receiving(RxMode::Continuous);
    let step = lora.start_rx();
    let (issued, result) = drive(&mut lora, step, obliging);
    assert_eq!(issued, vec![Command::DoRx(RxMode::Continuous)]);
    assert_eq!(result, Ok(Output::Done));

    let step = lora.complete_rx(&framing(32));
    let (issued, result) = drive(&mut lora, step, failing_at(1, RadioError::CRCErrorOnReceive));
    assert_eq!(result, Err(RadioError::CRCErrorOnReceive));
    assert_eq!(issued, vec![process_irq(RadioMode::Receive(RxMode::Continuous), false)]);
    assert_eq!(lora.radio_mode(), RadioMode::Receive(RxMode::Continuous));

    let step = lora.complete_rx(&framing(32));
    let (_, result) = drive(&mut lora, step, obliging);
    assert_eq!(result, Ok(Output::Received(5, status())));
}

#[test]
fn a_failed_interrupt_ends_a_single_reception_in_standby() {
    let mut lora = receiving(RxMode::Single);
    let step = lora.start_rx();
    let (issued, result) = drive(&mut lora, step, obliging);
    assert_eq!(issued, vec![Command::DoRx(RxMode::Single)]);
    assert_eq!(result, Ok(Output::Done));

    let step = lora.complete_rx(&framing(32));
    let (issued, result) = drive(&mut lora, step, failing_at(1, RadioError::CRCErrorOnReceive));
    assert_eq!(result, Err(RadioError::CRCErrorOnReceive));
    assert_eq!(
        issued,
        vec![
            process_irq(RadioMode::Receive(RxMode::Single), false),
            Command::EnsureReady(RadioMode::Receive(RxMode::Single)),
            Command::SetStandby,
        ]
    );
    assert_eq!(lora.radio_mode(), RadioMode::Standby);
    assert_eq!(lora.complete_rx(&framing(32)), Step::Finish(Err(RadioError::InvalidRadioMode)));
}

#[test]
fn complete_rx_yields_what_the_radio_received() {
    for received_len in [0u8, 1, 32, 255] {
        let mut lora = receiving(RxMode::Single);
        let quality = PacketStatus { rssi: -120, snr: -7 };
        let step = lora.complete_rx(&framing(32));
        let (issued, step) = feed(
            &mut lora,
            step,
            &[
                irq(Some(IrqState::Done)),
                Ok(Answer::PayloadLength(received_len)),
                Ok(Answer::PacketStatus(quality)),
            ],
        );
        assert_eq!(
            issued,
            vec![
                process_irq(RadioMode::Receive(RxMode::Single), false),
                Command::GetRxPayload(framing(32)),
                Command::GetRxPacketStatus,
            ]
        );
        assert_eq!(step, Step::Finish(Ok(Output::Received(received_len, quality))));
        assert_eq!(lora.radio_mode(), RadioMode::Receive(RxMode::Single));
    }
}

#[test]
fn complete_rx_waits_through_preambles() {
    let mut lora = receiving(RxMode::Single);
    let step = lora.complete_rx(&framing(32));
    let (issued, step) = feed(
        &mut lora,
        step,
        &[
            irq(Some(IrqState::PreambleReceived)),
            Ok(Answer::Done),
            irq(None),
            Ok(Answer::Done),
            irq(Some(IrqState::Done)),
        ],
    );
    let process = process_irq(RadioMode::Receive(RxMode::Single), false);
    assert_eq!(issued, vec![process, Command::AwaitIrq, process, Command::AwaitIrq, process]);
    assert_eq!(step, Step::Issue(Command::GetRxPayload(framing(32))));
}

#[test]
fn complete_rx_does_not_recover_from_other_failures() {
    let scripts: Vec<Vec<Reply>> = vec![
        vec![irq(None), Err(RadioError::Irq)],
        vec![irq(Some(IrqState::Done)), Err(RadioError::PayloadSizeMismatch(4, 9))],
        vec![irq(Some(IrqState::Done)), Ok(Answer::PayloadLength(9)), Err(RadioError::SPI)],
    ];
    for script in scripts {
        let mut lora = receiving(RxMode::Single);
        let step = lora.complete_rx(&framing(32));
        let (_, step) = feed(&mut lora, step, &script);
        assert_eq!(step, Step::Finish(Err(script[script.len() - 1].unwrap_err())));
        assert_eq!(lora.radio_mode(), RadioMode::Receive(RxMode::Single));
    }
}

#[test]
fn rx_starts_and_completes() {
    let mut lora = receiving(RxMode::Single);
    let step = lora.rx(&framing(32));
    let (issued, result) = drive(&mut lora, step, obliging);
    assert_eq!(
        issued,
        vec![
            Command::DoRx(RxMode::Single),
            process_irq(RadioMode::Receive(RxMode::Single), false),
            Command::GetRxPayload(framing(32)),
            Command::GetRxPacketStatus,
        ]
    );
    assert_eq!(result, Ok(Output::Received(5, status())));
    assert_eq!(lora.radio_mode(), RadioMode::Receive(RxMode::Single));

    let step = lora.rx(&framing(32));
    let (issued, result) = drive(&mut lora, step, failing_at(1, RadioError::Busy));
    assert_eq!(issued.len(), 1);
    assert_eq!(result, Err(RadioError::Busy));
}

#[test]
fn get_rx_result_fetches_length_and_quality() {
    let mut lora = receiving(RxMode::Continuous);
    let step = lora.get_rx_result(&framing(32));
    let (issued, result) = drive(&mut lora, step, obliging);
    assert_eq!(issued, vec![Command::GetRxPayload(framing(32)), Command::GetRxPacketStatus]);
    assert_eq!(result, Ok(Output::Received(5, status())));
    assert_eq!(lora.radio_mode(), RadioMode::Receive(RxMode::Continuous));
}

#[test]
fn rx_switch_channel_retunes_without_preparing_again() {
    let mut lora = receiving(RxMode::Continuous);
    let step = lora.rx_switch_channel(869_525_000);
    let (issued, result) = drive(&mut lora, step, obliging);
    assert_eq!(
        issued,
        vec![
            Command::SetStandby,
            Command::SetChannel(869_525_000),
            Command::DoRx(RxMode::Continuous),
        ]
    );
    assert_eq!(result, Ok(Output::Done));
    assert_eq!(lora.radio_mode(), RadioMode::Receive(RxMode::Continuous));
}

#[test]
fn the_interrupt_accessors_pass_the_mode_on() {
    let mut lora = receiving(RxMode::Single);
    let mode = RadioMode::Receive(RxMode::Single);

    let step = lora.wait_for_irq();
    let (issued, result) = drive(&mut lora, step, obliging);
    assert_eq!(issued, vec![Command::AwaitIrq]);
    assert_eq!(result, Ok(Output::Done));

    let step = lora.process_irq_event();
    assert_eq!(
        step,
        Step::Issue(Command::ProcessIrqEvent {
            radio_mode: mode,
            cad_activity: false,
            is_blocking: false,
        })
    );
    assert_eq!(
        lora.advance(irq(Some(IrqState::PreambleReceived))),
        Step::Finish(Ok(Output::Irq(Some(IrqState::PreambleReceived))))
    );

    let step = lora.get_irq_state();
    assert_eq!(step, Step::Issue(Command::GetIrqState { radio_mode: mode, cad_activity: false }));
    assert_eq!(lora.advance(irq(None)), Step::Finish(Ok(Output::Irq(None))));

    let step = lora.clear_irq_status();
    let (issued, result) = drive(&mut lora, step, failing_at(1, RadioError::SPI));
    assert_eq!(issued, vec![Command::ClearIrqStatus]);
    assert_eq!(result, Err(RadioError::SPI));
    assert_eq!(lora.radio_mode(), mode);
}

#[test]
fn listen_measures_on_a_throwaway_modulation() {
    let mut lora = settled();
    let step = lora.listen(FREQUENCY, Bandwidth::_250KHz);
    let (issued, result) = drive(&mut lora, step, obliging);
    let throwaway = ModulationParams {
        spreading_factor: SpreadingFactor::_7,
        bandwidth: Bandwidth::_250KHz,
        coding_rate: CodingRate::_4_5,
        frequency_in_hz: FREQUENCY,
    };
    assert_eq!(
        issued,
        vec![
            Command::EnsureReady(RadioMode::Standby),
            Command::SetChannel(FREQUENCY),
            Command::CreateModulationParams {
                spreading_factor: SpreadingFactor::_7,
                bandwidth: Bandwidth::_250KHz,
                coding_rate: CodingRate::_4_5,
                frequency_in_hz: FREQUENCY,
            },
            Command::SetModulationParams(throwaway),
            Command::DoRx(RxMode::Continuous),
        ]
    );
    assert_eq!(result, Ok(Output::Done));
    assert_eq!(lora.radio_mode(), RadioMode::Listen);

    let step = lora.get_rssi();
    let (issued, result) = drive(&mut lora, step, obliging);
    assert_eq!(issued, vec![Command::GetRssi]);
    assert_eq!(result, Ok(Output::Rssi(-80)));
}

#[test]
fn listen_is_in_listen_mode_once_it_starts_the_receiver() {
    let mut lora = settled();
    let step = lora.listen(FREQUENCY, Bandwidth::_125KHz);
    let (_, result) = drive(&mut lora, step, failing_at(5, RadioError::Busy));
    assert_eq!(result, Err(RadioError::Busy));
    assert_eq!(lora.radio_mode(), RadioMode::Listen);

    let mut lora = settled();
    let step = lora.listen(FREQUENCY, Bandwidth::_125KHz);
    let (_, result) = drive(&mut lora, step, failing_at(3, RadioError::UnavailableBandwidth));
    assert_eq!(result, Err(RadioError::UnavailableBandwidth));
    assert_eq!(lora.radio_mode(), RadioMode::Standby);
}

#[test]
fn cad_scenario() {
    let mut lora = detecting();
    let step = lora.cad(&modulation());
    let (issued, step) = feed(
        &mut lora,
        step,
        &[
            Ok(Answer::Done),
            Ok(Answer::Done),
            Ok(Answer::Irq { state: Some(IrqState::Done), cad_activity_detected: true }),
        ],
    );
    assert_eq!(
        issued,
        vec![
            Command::DoCad(modulation()),
            Command::AwaitIrq,
            process_irq(RadioMode::ChannelActivityDetection, true),
        ]
    );
    assert_eq!(step, Step::Finish(Ok(Output::ActivityDetected(true))));
    assert_eq!(lora.radio_mode(), RadioMode::Standby);
    assert_eq!(lora.cad(&modulation()), Step::Finish(Err(RadioError::InvalidRadioMode)));

    let mut lora = detecting();
    let step = lora.cad(&modulation());
    let (_, result) = drive(&mut lora, step, obliging);
    assert_eq!(result, Ok(Output::ActivityDetected(false)));
    assert_eq!(lora.radio_mode(), RadioMode::Standby);

    let mut lora = detecting();
    let step = lora.cad(&modulation());
    let (issued, result) = drive(&mut lora, step, failing_at(3, RadioError::OpError(7)));
    assert_eq!(result, Err(RadioError::OpError(7)));
    assert_eq!(
        issued[3..],
        [Command::EnsureReady(RadioMode::ChannelActivityDetection), Command::SetStandby]
    );
    assert_eq!(lora.radio_mode(), RadioMode::Standby);
}

#[test]
fn prepare_for_cad_programs_the_detection() {
    let mut lora = settled();
    let step = lora.prepare_for_cad(&modulation());
    let (issued, result) = drive(&mut lora, step, obliging);
    assert_eq!(result, Ok(Output::Done));
    assert_eq!(
        issued,
        vec![
            Command::EnsureReady(RadioMode::Standby),
            Command::SetModulationParams(modulation()),
            Command::SetChannel(FREQUENCY),
            Command::SetIrqParams(Some(RadioMode::ChannelActivityDetection)),
        ]
    );
}

#[test]
fn continuous_wave_programs_a_carrier() {
    let mut lora = receiving(RxMode::Single);
    let step = lora.continuous_wave(&modulation(), 10);
    let (issued, result) = drive(&mut lora, step, obliging);
    let dummy = PacketParams {
        preamble_length: 0,
        implicit_header: true,
        payload_length: 16,
        crc_on: false,
        iq_inverted: false,
    };
    assert_eq!(
        issued,
        vec![
            Command::EnsureReady(RadioMode::Receive(RxMode::Single)),
            Command::SetStandby,
            Command::CreatePacketParams {
                preamble_length: 0,
                implicit_header: true,
                payload_length: 16,
                crc_on: false,
                iq_inverted: false,
                modulation_params: modulation(),
            },
            Command::SetPacketParams(dummy),
            Command::SetModulationParams(modulation()),
            Command::SetTxPowerAndRampTime {
                output_power: 10,
                mdltn_params: Some(modulation()),
                is_tx: true,
            },
            Command::EnsureReady(RadioMode::Standby),
            Command::SetChannel(FREQUENCY),
            Command::SetIrqParams(Some(RadioMode::Transmit)),
            Command::SetTxContinuousWaveMode,
        ]
    );
    assert_eq!(result, Ok(Output::Done));
    assert_eq!(lora.radio_mode(), RadioMode::Transmit);
}

#[test]
fn enter_standby_sets_the_mode_when_the_radio_obeys() {
    let mut lora = transmitting();
    let step = lora.enter_standby();
    let (issued, result) = drive(&mut lora, step, failing_at(1, RadioError::Busy));
    assert_eq!(issued, vec![Command::SetStandby]);
    assert_eq!(result, Err(RadioError::Busy));
    assert_eq!(lora.radio_mode(), RadioMode::Transmit);

    let step = lora.enter_standby();
    let (_, result) = drive(&mut lora, step, obliging);
    assert_eq!(result, Ok(Output::Done));
    assert_eq!(lora.radio_mode(), RadioMode::Standby);
}

#[test]
fn a_cold_sleep_owes_a_cold_start() {
    let mut lora = settled();
    let step = lora.sleep(false);
    let (issued, result) = drive(&mut lora, step, obliging);
    assert_eq!(issued, vec![Command::EnsureReady(RadioMode::Standby), Command::SetSleep(false)]);
    assert_eq!(result, Ok(Output::Done));
    assert_eq!(lora.radio_mode(), RadioMode::Sleep);
    assert!(lora.cold_start());
    assert!(!lora.calibrate_image());

    let step = lora.prepare_for_rx(RxMode::Single, &modulation(), &framing(32));
    let (issued, result) = drive(&mut lora, step, obliging);
    assert_eq!(result, Ok(Output::Done));
    assert_eq!(
        issued[..6],
        [
            Command::EnsureReady(RadioMode::Sleep),
            Command::SetStandby,
            Command::InitLora(0x34),
            Command::SetTxPowerAndRampTime { output_power: 0, mdltn_params: None, is_tx: false },
            Command::SetIrqParams(Some(RadioMode::Standby)),
            Command::CalibrateImage(FREQUENCY),
        ]
    );
    assert!(!lora.cold_start());
    assert!(!lora.calibrate_image());
}

#[test]
fn a_warm_sleep_leaves_the_cold_start_flag() {
    let mut lora = settled();
    let step = lora.sleep(true);
    let (issued, result) = drive(&mut lora, step, obliging);
    assert_eq!(issued, vec![Command::EnsureReady(RadioMode::Standby), Command::SetSleep(true)]);
    assert_eq!(result, Ok(Output::Done));
    assert_eq!(lora.radio_mode(), RadioMode::Sleep);
    assert!(!lora.cold_start());

    let step = lora.sleep(false);
    assert_eq!(step, Step::Finish(Ok(Output::Done)));
    assert!(!lora.cold_start());

    let step = lora.prepare_for_cad(&modulation());
    let (issued, _) = drive(&mut lora, step, obliging);
    assert_eq!(
        issued[..3],
        [
            Command::EnsureReady(RadioMode::Sleep),
            Command::SetStandby,
            Command::SetModulationParams(modulation()),
        ]
    );

    let mut cold = settled();
    let step = cold.sleep(false);
    drive(&mut cold, step, obliging);
    assert!(cold.cold_start());
    let step = cold.init();
    drive(&mut cold, step, failing_at(1, RadioError::Reset));
    let step = cold.sleep(true);
    drive(&mut cold, step, obliging);
    assert!(cold.cold_start());
}

#[test]
fn a_failed_sleep_changes_nothing() {
    for position in 1..=2 {
        let mut lora = settled();
        let step = lora.sleep(false);
        let (_, result) = drive(&mut lora, step, failing_at(position, RadioError::SPI));
        assert_eq!(result, Err(RadioError::SPI));
        assert_eq!(lora.radio_mode(), RadioMode::Standby);
        assert!(!lora.cold_start());
    }
}

#[test]
fn the_image_is_calibrated_once_per_cold_start() {
    let mut lora = initialised();
    let mut calibrations = 0;
    let mut cold_starts = 0;
    for round in 0..6 {
        let step = match round % 3 {
            0 => lora.prepare_for_tx(&modulation(), &framing(0), 14, b"ping"),
            1 => lora.prepare_for_rx(RxMode::Single, &modulation(), &framing(32)),
            _ => lora.prepare_for_cad(&modulation()),
        };
        let (issued, result) = drive(&mut lora, step, obliging);
        assert_eq!(result, Ok(Output::Done));
        for command in issued {
            match command {
                Command::CalibrateImage(frequency) => {
                    assert_eq!(frequency, FREQUENCY);
                    calibrations += 1;
                }
                Command::InitLora(_) => cold_starts += 1,
                _ => {}
            }
        }
    }
    assert_eq!(calibrations, 1);
    assert_eq!(cold_starts, 0);
}

#[test]
fn a_failed_calibration_is_tried_again() {
    let mut lora = initialised();
    let step = lora.prepare_for_cad(&modulation());
    let (issued, result) = drive(&mut lora, step, failing_at(2, RadioError::OpError(3)));
    assert_eq!(issued[1], Command::CalibrateImage(FREQUENCY));
    assert_eq!(result, Err(RadioError::OpError(3)));
    assert!(lora.calibrate_image());

    let step = lora.prepare_for_cad(&modulation());
    let (issued, result) = drive(&mut lora, step, obliging);
    assert_eq!(issued[1], Command::CalibrateImage(FREQUENCY));
    assert_eq!(result, Ok(Output::Done));
    assert!(!lora.calibrate_image());
}

#[test]
fn a_payload_that_is_too_long_is_refused_before_the_channel_is_programmed() {
    for length in [256usize, 257, 1000] {
        let mut lora = settled();
        let payload = vec![0xa5u8; length];
        let step = lora.prepare_for_tx(&modulation(), &framing(0), 14, &payload);
        let (issued, result) = drive(&mut lora, step, obliging);
        assert_eq!(result, Err(RadioError::PayloadSizeUnexpected(length)));
        assert_eq!(
            issued,
            vec![
                Command::EnsureReady(RadioMode::Standby),
                Command::SetModulationParams(modulation()),
                Command::SetTxPowerAndRampTime {
                    output_power: 14,
                    mdltn_params: Some(modulation()),
                    is_tx: true,
                },
                Command::EnsureReady(RadioMode::Standby),
            ]
        );
        assert_eq!(lora.radio_mode(), RadioMode::Standby);
        assert_eq!(lora.tx(), Step::Finish(Err(RadioError::InvalidRadioMode)));
    }
}

#[test]
fn the_payload_length_goes_into_the_packet_parameters() {
    for length in [0usize, 1, 5, 254, 255] {
        let mut lora = settled();
        let payload = vec![0x5au8; length];
        let step = lora.prepare_for_tx(&modulation(), &framing(77), -3, &payload);
        let (issued, result) = drive(&mut lora, step, obliging);
        assert_eq!(result, Ok(Output::Done));
        assert_eq!(issued[4], Command::SetPacketParams(framing(length as u8)));
        let framings = issued
            .iter()
            .filter(|command| matches!(command, Command::SetPacketParams(_)))
            .count();
        assert_eq!(framings, 1);
    }
}

#[test]
fn a_failed_preparation_for_tx_stops_where_it_failed() {
    for position in 1..=9 {
        let mut lora = initialised();
        let step = lora.prepare_for_tx(&modulation(), &framing(0), 14, b"hello");
        let (issued, result) = drive(&mut lora, step, failing_at(position, RadioError::SPI));
        assert_eq!(result, Err(RadioError::SPI));
        assert_eq!(issued.len(), position);
        let expected = if position == 9 { RadioMode::Transmit } else { RadioMode::Standby };
        assert_eq!(lora.radio_mode(), expected);
        assert_eq!(lora.calibrate_image(), position <= 2);
    }
}

#[test]
fn only_answers_of_the_awaited_shape_are_admitted() {
    let (mut lora, _) = LoRa::new(true);
    assert_eq!(lora.stage(), Stage::Init(lora_phy::stage::InitStage::Reset));
    assert!(lora.admits(&Ok(Answer::Done)));
    assert!(lora.admits(&Err(RadioError::Reset)));
    assert!(!lora.admits(&Ok(Answer::Rssi(0))));
    assert!(!lora.admits(&irq(None)));

    let mut lora = initialised();
    assert!(!lora.admits(&Ok(Answer::Done)));
    assert!(!lora.admits(&Err(RadioError::SPI)));

    lora.get_rssi();
    assert!(lora.admits(&Ok(Answer::Rssi(-1))));
    assert!(!lora.admits(&Ok(Answer::Done)));
    lora.advance(Ok(Answer::Rssi(-1)));

    lora.create_modulation_params(
        SpreadingFactor::_12,
        Bandwidth::_500KHz,
        CodingRate::_4_8,
        915_000_000,
    );
    assert!(lora.admits(&Ok(Answer::ModulationParams(modulation()))));
    assert!(lora.admits(&Err(RadioError::UnavailableSpreadingFactor)));
    assert!(!lora.admits(&Ok(Answer::PacketParams(framing(0)))));
    lora.advance(Err(RadioError::UnavailableSpreadingFactor));

    lora.create_rx_packet_params(8, true, 64, false, true, &modulation());
    assert!(lora.admits(&Ok(Answer::PacketParams(framing(64)))));
    assert!(!lora.admits(&Ok(Answer::ModulationParams(modulation()))));
    assert!(!lora.admits(&Ok(Answer::PayloadLength(64))));
    assert!(!lora.admits(&Ok(Answer::PacketStatus(status()))));
}

#[test]
fn a_detection_admits_no_interrupt_but_done() {
    let mut lora = detecting();
    let step = lora.cad(&modulation());
    let (_, step) = feed(&mut lora, step, &[Ok(Answer::Done), Ok(Answer::Done)]);
    assert_eq!(step, Step::Issue(process_irq(RadioMode::ChannelActivityDetection, true)));
    assert!(!lora.admits(&irq(None)));
    assert!(!lora.admits(&irq(Some(IrqState::PreambleReceived))));
    assert!(!lora.admits(&Ok(Answer::Done)));
    assert!(lora.admits(&irq(Some(IrqState::Done))));
    assert!(lora.admits(&Err(RadioError::Irq)));
}

#[test]
fn create_rx_packet_params_passes_the_longest_payload() {
    let mut lora = settled();
    let step = lora.create_rx_packet_params(12, true, 200, false, true, &modulation());
    assert_eq!(
        step,
        Step::Issue(Command::CreatePacketParams {
            preamble_length: 12,
            implicit_header: true,
            payload_length: 200,
            crc_on: false,
            iq_inverted: true,
            modulation_params: modulation(),
        })
    );
    let built = PacketParams {
        preamble_length: 12,
        implicit_header: true,
        payload_length: 200,
        crc_on: false,
        iq_inverted: true,
    };
    assert_eq!(
        lora.advance(Ok(Answer::PacketParams(built))),
        Step::Finish(Ok(Output::PacketParams(built)))
    );
    assert_eq!(lora.radio_mode(), RadioMode::Standby);
}

#[test]
fn every_failure_of_the_radio_surfaces_unchanged() {
    let failures = [
        RadioError::SPI,
        RadioError::Reset,
        RadioError::Busy,
        RadioError::Irq,
        RadioError::OpError(0x2a),
        RadioError::InvalidRadioMode,
        RadioError::PayloadSizeUnexpected(300),
        RadioError::PayloadSizeMismatch(16, 32),
        RadioError::UnavailableSpreadingFactor,
        RadioError::UnavailableBandwidth,
        RadioError::UnavailableCodingRate,
        RadioError::InvalidBandwidthForFrequency,
        RadioError::InvalidOutputPowerForFrequency,
        RadioError::TransmitTimeout,
        RadioError::ReceiveTimeout,
        RadioError::HeaderError,
        RadioError::CRCErrorOnReceive,
    ];
    for failure in failures {
        let mut lora = settled();
        let step = lora.get_rssi();
        let (_, result) = drive(&mut lora, step, failing_at(1, failure));
        assert_eq!(result, Err(failure));

        let mut lora = receiving(RxMode::Single);
        let step = lora.rx(&framing(32));
        let (issued, result) = drive(&mut lora, step, failing_at(2, failure));
        assert_eq!(result, Err(failure));
        assert_eq!(issued.len(), 4);
        assert_eq!(lora.radio_mode(), RadioMode::Standby);
    }
}

#[test]
fn an_abandoned_operation_leaves_the_controller_at_rest() {
    let mut lora = receiving(RxMode::Continuous);
    let step = lora.wait_for_irq();
    assert_eq!(step, Step::Issue(Command::AwaitIrq));
    assert!(!lora.is_idle());
    lora.abandon();
    assert!(lora.is_idle());
    assert_eq!(lora.stage(), Stage::Idle);
    assert_eq!(lora.radio_mode(), RadioMode::Receive(RxMode::Continuous));
    assert!(!lora.cold_start());
    assert!(!lora.calibrate_image());
    assert!(!lora.admits(&Ok(Answer::Done)));

    let step = lora.get_rx_result(&framing(32));
    let (_, result) = drive(&mut lora, step, obliging);
    assert_eq!(result, Ok(Output::Received(5, status())));

    lora.abandon();
    assert!(lora.is_idle());
    assert_eq!(lora.radio_mode(), RadioMode::Receive(RxMode::Continuous));
}

#[test]
fn an_abandoned_preparation_keeps_what_it_had_got_to() {
    let mut lora = initialised();
    let step = lora.sleep(false);
    drive(&mut lora, step, obliging);
    let step = lora.prepare_for_tx(&modulation(), &framing(0), 14, b"hello");
    let (issued, step) = feed(&mut lora, step, &[Ok(Answer::Done); 5]);
    assert_eq!(issued.len(), 5);
    assert_eq!(step, Step::Issue(Command::CalibrateImage(FREQUENCY)));
    lora.abandon();
    assert!(lora.is_idle());
    assert_eq!(lora.radio_mode(), RadioMode::Standby);
    assert!(!lora.cold_start());
    assert!(lora.calibrate_image());

    let step = lora.prepare_for_cad(&modulation());
    let (issued, result) = drive(&mut lora, step, obliging);
    assert_eq!(result, Ok(Output::Done));
    assert_eq!(
        issued[..2],
        [Command::EnsureReady(RadioMode::Standby), Command::CalibrateImage(FREQUENCY)]
    );
}
