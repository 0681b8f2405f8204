//! The CEC bus vocabulary the dispatcher works with: logical
//! addresses, the opcodes it understands, power statuses, remote
//! control codes, and the command value itself.
use vstd::prelude::*;
use crate::packet::Datapacket;

verus! {

/// A participant on the CEC bus; purely a tag used for the initiator
/// and destination of a command.
#[derive(Clone, Copy, Debug, PartialEq, Eq, Structural)]
pub enum LogicalAddress {
    Unknown,
    Tv,
    RecordingDevice1,
    RecordingDevice2,
    Tuner1,
    PlaybackDevice1,
    AudioSystem,
    Tuner2,
    Tuner3,
    PlaybackDevice2,
    RecordingDevice3,
    Tuner4,
    PlaybackDevice3,
    Reserved1,
    Reserved2,
    FreeUse,
    Unregistered,
}

/// The command set the dispatcher understands; every other opcode on
/// the bus is carried as `Other` and passes through silently.
#[derive(Clone, Copy, Debug, PartialEq, Eq, Structural)]
pub enum Opcode {
    SystemAudioModeRequest,
    GiveSystemAudioModeStatus,
    GiveAudioStatus,
    UserControlPressed,
    ReportPowerStatus,
    SetSystemAudioMode,
    SystemAudioModeStatus,
    ReportAudioStatus,
    GiveDevicePowerStatus,
    Other,
}

/// The TV's reported power status. Only the two transition variants
/// trigger side effects; steady states are observational.
#[derive(Clone, Copy, Debug, PartialEq, Eq, Structural)]
pub enum PowerStatus {
    On,
    Standby,
    InTransitionStandbyToOn,
    InTransitionOnToStandby,
    Unknown,
}

/// A remote-control key. The keys this device reacts to are named;
/// every other code is carried as `Other`.
#[derive(Clone, Copy, Debug, PartialEq, Eq, Structural)]
pub enum UserControlCode {
    VolumeUp,
    VolumeDown,
    Mute,
    Other,
}

/// A CEC command as it travels on the bus: addressing, opcode, payload,
/// the acknowledgement and end-of-message flags, and the transmit
/// timeout in milliseconds. Immutable once constructed; each reply is a
/// freshly built value.
pub struct CecCommand {
    pub initiator: LogicalAddress,
    pub destination: LogicalAddress,
    pub ack: bool,
    pub eom: bool,
    pub opcode: Opcode,
    pub parameters: Datapacket,
    pub opcode_set: bool,
    pub transmit_timeout_ms: u64,
}

} // verus!
