//! The command dispatcher: a pure function of a received bus command
//! giving zero-or-one outgoing reply, or the power event to forward to
//! the power-status monitor. Replies are pushed onto the outgoing
//! queue by the caller, never transmitted from the dispatch call.
use vstd::prelude::*;
use crate::codec::{audio_status_byte, audio_status_data_packet, bool_byte, bool_data_packet,
    decoded_mute, decoded_volume, lemma_audio_status_round_trip, VolumePercent};
use crate::packet::Datapacket;
use crate::power::{power_status_from_byte, spec_power_status_from_byte};
use crate::types::{CecCommand, LogicalAddress, Opcode, PowerStatus, UserControlCode};

verus! {

/// The volume reported in audio-status replies: a fixed placeholder
/// until retrieval of the real mixer level is wired in.
pub const PLACEHOLDER_VOLUME_PERCENT: u8 = 50;

/// Transmit timeout carried by every reply, in milliseconds.
pub const REPLY_TIMEOUT_MS: u64 = 500;

/// The remote-control key a `UserControlPressed` payload byte stands
/// for: the CEC wire values for volume up, volume down and mute. Any
/// other byte is carried as `Other`.
pub open spec fn spec_user_control_from_byte(b: u8) -> UserControlCode {
    if b == 0x41 {
        UserControlCode::VolumeUp
    } else if b == 0x42 {
        UserControlCode::VolumeDown
    } else if b == 0x43 {
        UserControlCode::Mute
    } else {
        UserControlCode::Other
    }
}

/// Parses the pressed-control byte of a `UserControlPressed` payload.
pub fn user_control_from_byte(b: u8) -> (r: UserControlCode)
    ensures
        r == spec_user_control_from_byte(b),
{
    if b == 0x41 {
        UserControlCode::VolumeUp
    } else if b == 0x42 {
        UserControlCode::VolumeDown
    } else if b == 0x43 {
        UserControlCode::Mute
    } else {
        UserControlCode::Other
    }
}

/// What one received command leads to: one outgoing reply, one power
/// event forwarded to the power-status monitor, or nothing at all.
pub enum DispatchOutcome {
    Reply(CecCommand),
    TvPowerEvent(PowerStatus),
    Nothing,
}

/// A reply correctly formed from a received command: roles swapped
/// (the reply goes back to the command's initiator, from its
/// destination), acknowledgement requested, end of message set, the
/// reply timeout, and the given opcode and payload.
pub open spec fn is_reply_to(
    reply: CecCommand,
    received: CecCommand,
    opcode: Opcode,
    payload: Seq<u8>,
) -> bool {
    &&& reply.initiator == received.destination
    &&& reply.destination == received.initiator
    &&& reply.opcode == opcode
    &&& reply.parameters@ == payload
    &&& reply.ack
    &&& reply.eom
    &&& reply.opcode_set
    &&& reply.transmit_timeout_ms == REPLY_TIMEOUT_MS
}

/// The one-byte payload every audio-status reply carries: not muted,
/// at the placeholder volume.
pub open spec fn placeholder_audio_status_payload() -> Seq<u8> {
    seq![audio_status_byte(false, PLACEHOLDER_VOLUME_PERCENT)]
}

/// Every audio-status reply reports one byte whose high bit is clear
/// - not muted - and whose low seven bits equal the placeholder
/// volume.
pub proof fn lemma_placeholder_payload_unmuted()
    ensures
        placeholder_audio_status_payload().len() == 1,
        !decoded_mute(placeholder_audio_status_payload()[0]),
        decoded_volume(placeholder_audio_status_payload()[0]) == PLACEHOLDER_VOLUME_PERCENT,
{
    lemma_audio_status_round_trip(false, PLACEHOLDER_VOLUME_PERCENT);
}

/// Builds a reply to `received` with the given opcode and payload.
fn reply_command(received: &CecCommand, opcode: Opcode, parameters: Datapacket) -> (r: CecCommand)
    ensures
        is_reply_to(r, *received, opcode, parameters@),
{
    CecCommand {
        ack: true,
        destination: received.initiator,
        eom: true,
        initiator: received.destination,
        transmit_timeout_ms: REPLY_TIMEOUT_MS,
        parameters,
        opcode_set: true,
        opcode,
    }
}

/// The audio-status packet every `ReportAudioStatus` reply carries.
fn placeholder_audio_status_packet() -> (r: Datapacket)
    ensures
        r@ == placeholder_audio_status_payload(),
{
    let volume = VolumePercent::try_from(PLACEHOLDER_VOLUME_PERCENT).unwrap();
    audio_status_data_packet(false, volume)
}

/// Maps one received command to its outcome, following the transition
/// table of the system-audio-control exchange:
///
/// * `SystemAudioModeRequest` is always accepted, whatever physical
///   address it asks for: the reply is `SetSystemAudioMode` with a
///   true payload;
/// * `GiveSystemAudioModeStatus` is answered with
///   `SystemAudioModeStatus`, true;
/// * `GiveAudioStatus` is answered with `ReportAudioStatus` carrying
///   the audio-status byte;
/// * `UserControlPressed` mirrors a volume key back as an unsolicited
///   `ReportAudioStatus`, and is dropped when its payload is empty or
///   names any other key;
/// * `ReportPowerStatus` from the TV with a parsable status byte is
///   forwarded to the power-status monitor; all else about it is
///   dropped;
/// * every other opcode passes through silently.
///
/// An empty or unparsable payload never panics: it is no actionable
/// data, so nothing is produced.
pub fn dispatch(received: &CecCommand) -> (outcome: DispatchOutcome)
    ensures
        received.opcode is SystemAudioModeRequest ==> (outcome matches DispatchOutcome::Reply(r)
            && is_reply_to(r, *received, Opcode::SetSystemAudioMode, seq![bool_byte(true)])),
        received.opcode is GiveSystemAudioModeStatus ==> (outcome matches DispatchOutcome::Reply(r)
            && is_reply_to(r, *received, Opcode::SystemAudioModeStatus, seq![bool_byte(true)])),
        received.opcode is GiveAudioStatus ==> (outcome matches DispatchOutcome::Reply(r)
            && is_reply_to(r, *received, Opcode::ReportAudioStatus,
                placeholder_audio_status_payload())),
        received.opcode is UserControlPressed ==> (
            if received.parameters@.len() > 0
                && (spec_user_control_from_byte(received.parameters@[0]) is VolumeUp
                    || spec_user_control_from_byte(received.parameters@[0]) is VolumeDown) {
                outcome matches DispatchOutcome::Reply(r)
                    && is_reply_to(r, *received, Opcode::ReportAudioStatus,
                        placeholder_audio_status_payload())
            } else {
                outcome is Nothing
            }
        ),
        received.opcode is ReportPowerStatus ==> (
            if received.parameters@.len() > 0
                && received.initiator is Tv
                && spec_power_status_from_byte(received.parameters@[0]) is Some {
                outcome == DispatchOutcome::TvPowerEvent(
                    spec_power_status_from_byte(received.parameters@[0])->0,
                )
            } else {
                outcome is Nothing
            }
        ),
        !(received.opcode is SystemAudioModeRequest
            || received.opcode is GiveSystemAudioModeStatus
            || received.opcode is GiveAudioStatus
            || received.opcode is UserControlPressed
            || received.opcode is ReportPowerStatus) ==> outcome is Nothing,
{
    match received.opcode {
        Opcode::SystemAudioModeRequest => {
            // System audio mode is set no matter what physical address
            // the request carries.
            DispatchOutcome::Reply(
                reply_command(received, Opcode::SetSystemAudioMode, bool_data_packet(true)),
            )
        },
        Opcode::GiveSystemAudioModeStatus => {
            DispatchOutcome::Reply(
                reply_command(received, Opcode::SystemAudioModeStatus, bool_data_packet(true)),
            )
        },
        Opcode::GiveAudioStatus => {
            DispatchOutcome::Reply(
                reply_command(received, Opcode::ReportAudioStatus,
                    placeholder_audio_status_packet()),
            )
        },
        Opcode::UserControlPressed => {
            if received.parameters.len() > 0 {
                let code = user_control_from_byte(received.parameters.byte_at(0));
                if code == UserControlCode::VolumeUp || code == UserControlCode::VolumeDown {
                    DispatchOutcome::Reply(
                        reply_command(received, Opcode::ReportAudioStatus,
                            placeholder_audio_status_packet()),
                    )
                } else {
                    DispatchOutcome::Nothing
                }
            } else {
                DispatchOutcome::Nothing
            }
        },
        Opcode::ReportPowerStatus => {
            if received.parameters.len() > 0 {
                match power_status_from_byte(received.parameters.byte_at(0)) {
                    Some(power_status) => {
                        if received.initiator == LogicalAddress::Tv {
                            DispatchOutcome::TvPowerEvent(power_status)
                        } else {
                            DispatchOutcome::Nothing
                        }
                    },
                    None => DispatchOutcome::Nothing,
                }
            } else {
                DispatchOutcome::Nothing
            }
        },
        _ => DispatchOutcome::Nothing,
    }
}

} // verus!
