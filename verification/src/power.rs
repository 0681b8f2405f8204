//! The power-status half: reading the TV's reported status byte,
//! deciding which transition action a status triggers, and building
//! the recurring power-status request.
use vstd::prelude::*;
use crate::config::{AppConfig, CommandTemplate};
use crate::packet::Datapacket;
use crate::types::{CecCommand, LogicalAddress, Opcode, PowerStatus};

verus! {

/// Transmit timeout of the recurring power-status request, in
/// milliseconds.
pub const POWER_REQUEST_TIMEOUT_MS: u64 = 1000;

/// The power status a payload byte stands for, if any: the CEC wire
/// values 0 to 3 and the explicit unknown marker 0x99. Any other byte
/// carries no status and is ignored.
pub open spec fn spec_power_status_from_byte(b: u8) -> Option<PowerStatus> {
    if b == 0x00 {
        Some(PowerStatus::On)
    } else if b == 0x01 {
        Some(PowerStatus::Standby)
    } else if b == 0x02 {
        Some(PowerStatus::InTransitionStandbyToOn)
    } else if b == 0x03 {
        Some(PowerStatus::InTransitionOnToStandby)
    } else if b == 0x99 {
        Some(PowerStatus::Unknown)
    } else {
        None
    }
}

/// Parses the status byte of a `ReportPowerStatus` payload.
pub fn power_status_from_byte(b: u8) -> (r: Option<PowerStatus>)
    ensures
        r == spec_power_status_from_byte(b),
{
    if b == 0x00 {
        Some(PowerStatus::On)
    } else if b == 0x01 {
        Some(PowerStatus::Standby)
    } else if b == 0x02 {
        Some(PowerStatus::InTransitionStandbyToOn)
    } else if b == 0x03 {
        Some(PowerStatus::InTransitionOnToStandby)
    } else if b == 0x99 {
        Some(PowerStatus::Unknown)
    } else {
        None
    }
}

/// A TV power transition that triggers a configured action.
#[derive(Clone, Copy, Debug, PartialEq, Eq, Structural)]
pub enum TvTransition {
    TurnedOn,
    TurnedOff,
}

/// Decides which user action a reported power status triggers: only
/// the two transition states fire one, exactly once per received
/// event; the steady states `On`, `Standby` and `Unknown` never do.
pub fn transition_action(status: PowerStatus) -> (r: Option<TvTransition>)
    ensures
        r == (match status {
            PowerStatus::InTransitionStandbyToOn => Some(TvTransition::TurnedOn),
            PowerStatus::InTransitionOnToStandby => Some(TvTransition::TurnedOff),
            _ => None::<TvTransition>,
        }),
{
    match status {
        PowerStatus::InTransitionStandbyToOn => Some(TvTransition::TurnedOn),
        PowerStatus::InTransitionOnToStandby => Some(TvTransition::TurnedOff),
        _ => None,
    }
}

/// Whether the TV's power status is worth polling at all: it is when
/// at least one transition action is configured to react to it.
pub fn power_polling_enabled(config: &AppConfig) -> (r: bool)
    ensures
        r == (config.tv_turned_on_command is Some || config.tv_turned_off_command is Some),
{
    config.tv_turned_on_command.is_some() || config.tv_turned_off_command.is_some()
}

/// The configured argv a TV transition runs; either action may be
/// unbound, which makes the transition observational only.
pub fn template_for_transition<'a>(config: &'a AppConfig, transition: TvTransition) -> (r: Option<
    &'a CommandTemplate,
>)
    ensures
        transition is TurnedOn ==> (match config.tv_turned_on_command {
            Some(m) => r matches Some(t) && t@ == m@,
            None => r is None,
        }),
        transition is TurnedOff ==> (match config.tv_turned_off_command {
            Some(m) => r matches Some(t) && t@ == m@,
            None => r is None,
        }),
{
    match transition {
        TvTransition::TurnedOn => config.tv_turned_on_command.as_ref(),
        TvTransition::TurnedOff => config.tv_turned_off_command.as_ref(),
    }
}

/// Builds the recurring `GiveDevicePowerStatus` request the poller
/// transmits directly: addressed from this audio system to the TV,
/// empty payload, with the longer power-request timeout.
pub fn power_status_request() -> (r: CecCommand)
    ensures
        r.initiator == LogicalAddress::AudioSystem,
        r.destination == LogicalAddress::Tv,
        r.opcode == Opcode::GiveDevicePowerStatus,
        r.parameters@ == Seq::<u8>::empty(),
        r.ack,
        r.eom,
        r.opcode_set,
        r.transmit_timeout_ms == POWER_REQUEST_TIMEOUT_MS,
{
    CecCommand {
        ack: true,
        destination: LogicalAddress::Tv,
        eom: true,
        initiator: LogicalAddress::AudioSystem,
        transmit_timeout_ms: POWER_REQUEST_TIMEOUT_MS,
        parameters: Datapacket::new(),
        opcode_set: true,
        opcode: Opcode::GiveDevicePowerStatus,
    }
}

} // verus!
