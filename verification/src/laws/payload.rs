//! Payload lengths: what is programmed, what is refused, what is received.

use vstd::prelude::*;
use crate::command::{Answer, Command, Output, Step};
use crate::laws::{all_succeed, perform, run};
use crate::mod_params::{
    IrqState, MAX_PAYLOAD_LENGTH, ModulationParams, PacketParams, PacketStatus, RadioError,
};
use crate::model::{Request, resume, State};
use crate::stage::{ColdStart, Modem, Prepared, Stage, TxJob, TxSetup};

verus! {

/// Whether a call programs what a packet is sent with: its framing, its
/// channel or its payload.
pub open spec fn programs_packet(command: Command) -> bool {
    command is SetPacketParams || command is SetChannel || command is SetPayload
}

/// The calls that the preparation of a transmission still has to make before
/// it records the payload length, at most.
pub open spec fn calls_before_framing(c: State) -> nat {
    match c.stage {
        Stage::Modem(Modem::Ready, _) => 10,
        Stage::Modem(Modem::Standby, _) => 9,
        Stage::Modem(Modem::Cold(ColdStart::InitLora), _) => 8,
        Stage::Modem(Modem::Cold(ColdStart::TxPower), _) => 7,
        Stage::Modem(Modem::Cold(ColdStart::IrqParams), _) => 6,
        Stage::Modem(Modem::Calibrate, _) => 5,
        Stage::PrepareForTx(TxSetup::Modulation, _) => 4,
        Stage::PrepareForTx(TxSetup::Power, _) => 3,
        Stage::PrepareForTx(TxSetup::Ready, _) => 2,
        Stage::PrepareForTx(TxSetup::Standby, _) => 1,
        _ => 0,
    }
}

proof fn lemma_long_payload_step(job: TxJob, c: State, reply: Result<Answer, RadioError>)
    requires
        job.length > MAX_PAYLOAD_LENGTH,
        c.stage == Stage::Modem(c.stage->Modem_0, Prepared::Tx(job)) || {
            &&& c.stage == Stage::PrepareForTx(c.stage->PrepareForTx_0, job)
            &&& c.stage->PrepareForTx_0 is Modulation || c.stage->PrepareForTx_0 is Power
                || c.stage->PrepareForTx_0 is Ready || c.stage->PrepareForTx_0 is Standby
        },
    ensures
        ({
            let next = resume(c, reply);
            match next.1 {
                Step::Issue(issued) => {
                    &&& reply is Ok
                    &&& !programs_packet(issued)
                    &&& next.0.stage == Stage::Modem(next.0.stage->Modem_0, Prepared::Tx(job)) || {
                        &&& next.0.stage == Stage::PrepareForTx(
                            next.0.stage->PrepareForTx_0,
                            job,
                        )
                        &&& next.0.stage->PrepareForTx_0 is Modulation
                            || next.0.stage->PrepareForTx_0 is Power
                            || next.0.stage->PrepareForTx_0 is Ready
                            || next.0.stage->PrepareForTx_0 is Standby
                    }
                    &&& calls_before_framing(next.0) < calls_before_framing(c)
                },
                Step::Finish(result) => {
                    &&& result is Err
                    &&& result == Err::<Output, RadioError>(
                        RadioError::PayloadSizeUnexpected(job.length),
                    ) || reply is Err
                },
            }
        }),
{
}

proof fn lemma_long_payload_run(
    job: TxJob,
    c: State,
    command: Command,
    replies: Seq<Result<Answer, RadioError>>,
)
    requires
        job.length > MAX_PAYLOAD_LENGTH,
        !programs_packet(command),
        c.stage == Stage::Modem(c.stage->Modem_0, Prepared::Tx(job)) || {
            &&& c.stage == Stage::PrepareForTx(c.stage->PrepareForTx_0, job)
            &&& c.stage->PrepareForTx_0 is Modulation || c.stage->PrepareForTx_0 is Power
                || c.stage->PrepareForTx_0 is Ready || c.stage->PrepareForTx_0 is Standby
        },
    ensures
        ({
            let ran = run(c, Step::Issue(command), replies);
            match ran.1 {
                Step::Issue(issued) => {
                    &&& !programs_packet(issued)
                    &&& replies.len() >= calls_before_framing(c) ==> !all_succeed(replies)
                },
                Step::Finish(result) => {
                    &&& result is Err
                    &&& result == Err::<Output, RadioError>(
                        RadioError::PayloadSizeUnexpected(job.length),
                    ) || !all_succeed(replies)
                },
            }
        }),
    decreases replies.len(),
{
    if replies.len() > 0 {
        let next = resume(c, replies[0]);
        let rest = replies.drop_first();
        lemma_long_payload_step(job, c, replies[0]);
        match next.1 {
            Step::Issue(issued) => {
                lemma_long_payload_run(job, next.0, issued, rest);
                if all_succeed(replies) {
                    assert forall|i: int| 0 <= i < rest.len() implies (#[trigger] rest[i]) is Ok by {
                        assert(rest[i] == replies[i + 1]);
                    }
                }
            },
            Step::Finish(_) => {
                assert(run(next.0, next.1, rest) == next);
            },
        }
    }
}

/// A payload that is too long for packet parameters.
///
/// The preparation of its transmission never programs the packet framing,
/// the channel or the payload, and never succeeds. If every call that it does
/// make succeeds, it ends, after ten calls at most, with the error that names
/// the length.
pub proof fn lemma_long_payload_is_refused(
    c: State,
    mdltn_params: ModulationParams,
    tx_pkt_params: PacketParams,
    output_power: i32,
    length: usize,
    replies: Seq<Result<Answer, RadioError>>,
)
    requires
        length > MAX_PAYLOAD_LENGTH,
    ensures
        ({
            let prepared = perform(
                c,
                Request::PrepareForTx(mdltn_params, tx_pkt_params, output_power, length),
                replies,
            );
            match prepared.1 {
                Step::Issue(issued) => !programs_packet(issued) && !(all_succeed(replies)
                    && replies.len() >= 10),
                Step::Finish(result) => {
                    &&& result is Err
                    &&& all_succeed(replies) ==> result == Err::<Output, RadioError>(
                        RadioError::PayloadSizeUnexpected(length),
                    )
                },
            }
        }),
{
    let job = TxJob { mdltn_params, tx_pkt_params, output_power, length };
    lemma_long_payload_run(
        job,
        c.at(Stage::Modem(Modem::Ready, Prepared::Tx(job))),
        Command::EnsureReady(c.radio_mode),
        replies,
    );
}

/// What holds while a transmission is prepared whose payload fits: the
/// packet framing is programmed once, with the payload's length in it.
pub open spec fn frames_payload(job: TxJob, c: State, command: Command) -> bool {
    let framed = job.tx_pkt_params.with_payload_length(job.length as u8);
    match c.stage {
        Stage::Modem(_, operation) => operation == Prepared::Tx(job) && !(command
            is SetPacketParams),
        Stage::PrepareForTx(TxSetup::Packet, framing) => {
            &&& framing == TxJob { tx_pkt_params: framed, ..job }
            &&& command == Command::SetPacketParams(framed)
        },
        Stage::PrepareForTx(TxSetup::Channel, _)
        | Stage::PrepareForTx(TxSetup::Payload, _)
        | Stage::PrepareForTx(TxSetup::Irq, _) => !(command is SetPacketParams),
        Stage::PrepareForTx(_, framing) => framing == job && !(command is SetPacketParams),
        _ => false,
    }
}

proof fn lemma_framing_step(
    job: TxJob,
    c: State,
    command: Command,
    reply: Result<Answer, RadioError>,
)
    requires
        job.length <= MAX_PAYLOAD_LENGTH,
        frames_payload(job, c, command),
    ensures
        resume(c, reply).1 matches Step::Issue(issued) ==> frames_payload(
            job,
            resume(c, reply).0,
            issued,
        ),
{
}

proof fn lemma_framing_run(
    job: TxJob,
    c: State,
    command: Command,
    replies: Seq<Result<Answer, RadioError>>,
)
    requires
        job.length <= MAX_PAYLOAD_LENGTH,
        frames_payload(job, c, command),
    ensures
        run(c, Step::Issue(command), replies).1 matches Step::Issue(issued) ==> frames_payload(
            job,
            run(c, Step::Issue(command), replies).0,
            issued,
        ),
    decreases replies.len(),
{
    if replies.len() > 0 {
        let next = resume(c, replies[0]);
        lemma_framing_step(job, c, command, replies[0]);
        match next.1 {
            Step::Issue(issued) => lemma_framing_run(job, next.0, issued, replies.drop_first()),
            Step::Finish(_) => {
                assert(run(next.0, next.1, replies.drop_first()) == next);
            },
        }
    }
}

/// A payload that fits.
///
/// Whenever the preparation of its transmission programs packet framing, the
/// framing is the one given with the payload's length in it: the length that
/// the radio will send is the length of the buffer.
pub proof fn lemma_payload_length_is_programmed(
    c: State,
    mdltn_params: ModulationParams,
    tx_pkt_params: PacketParams,
    output_power: i32,
    length: usize,
    replies: Seq<Result<Answer, RadioError>>,
)
    requires
        length <= MAX_PAYLOAD_LENGTH,
    ensures
        perform(
            c,
            Request::PrepareForTx(mdltn_params, tx_pkt_params, output_power, length),
            replies,
        ).1 matches Step::Issue(Command::SetPacketParams(framed)) ==> {
            &&& framed == tx_pkt_params.with_payload_length(length as u8)
            &&& framed.payload_length == length
        },
{
    let job = TxJob { mdltn_params, tx_pkt_params, output_power, length };
    lemma_framing_run(
        job,
        c.at(Stage::Modem(Modem::Ready, Prepared::Tx(job))),
        Command::EnsureReady(c.radio_mode),
        replies,
    );
}

/// What the radio says it received is what the reception yields.
///
/// Once the interrupt of a reception reports that it is done, the length
/// and the signal quality that the radio returns are the result, unchanged,
/// and the mode stays as it is.
pub proof fn lemma_reception_yields_report(
    c: State,
    packet_params: PacketParams,
    cad_activity_detected: bool,
    received_len: u8,
    rx_pkt_status: PacketStatus,
)
    requires
        c.stage is Idle,
        c.radio_mode is Receive,
    ensures
        perform(
            c,
            Request::CompleteRx(packet_params),
            seq![
                Ok(Answer::Irq { state: Some(IrqState::Done), cad_activity_detected }),
                Ok(Answer::PayloadLength(received_len)),
                Ok(Answer::PacketStatus(rx_pkt_status)),
            ],
        ) == (c, Step::Finish(Ok(Output::Received(received_len, rx_pkt_status)))),
{
    reveal_with_fuel(run, 4);
}

} // verus!
