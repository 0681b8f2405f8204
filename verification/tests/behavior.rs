use cec_audio::codec::{decode_audio_status, encode_audio_status, VolumePercent};
use cec_audio::config::{
    configured_port, default_device_name, default_hdmi_port, default_power_poll_interval_ms,
    default_volume_down, default_volume_up, AppConfig, CommandTemplate,
};
use cec_audio::dispatch::{dispatch, DispatchOutcome};
use cec_audio::keypress::{command_for_key_press, translate_key_press, KeyPressAction};
use cec_audio::packet::Datapacket;
use cec_audio::power::{
    power_polling_enabled, power_status_from_byte, power_status_request, template_for_transition,
    transition_action, TvTransition,
};
use cec_audio::queue::OutgoingQueue;
use cec_audio::types::{CecCommand, LogicalAddress, Opcode, PowerStatus, UserControlCode};

fn received(opcode: Opcode, payload: &[u8]) -> CecCommand {
    let mut parameters = Datapacket::new();
    for &b in payload {
        parameters.push(b);
    }
    CecCommand {
        initiator: LogicalAddress::Tv,
        destination: LogicalAddress::AudioSystem,
        ack: true,
        eom: true,
        opcode,
        parameters,
        opcode_set: true,
        transmit_timeout_ms: 0,
    }
}

fn strings(args: &[&str]) -> Vec<String> {
    args.iter().map(|s| s.to_string()).collect()
}

fn config_with(
    mute: Option<&[&str]>,
    tv_on: Option<&[&str]>,
    tv_off: Option<&[&str]>,
) -> AppConfig {
    AppConfig {
        mute_command: mute.map(|a| CommandTemplate::new(strings(a))),
        tv_turned_on_command: tv_on.map(|a| CommandTemplate::new(strings(a))),
        tv_turned_off_command: tv_off.map(|a| CommandTemplate::new(strings(a))),
        ..AppConfig::default()
    }
}

#[test]
fn audio_status_round_trips_over_full_range() {
    for volume in 0u8..=100 {
        for &mute in &[false, true] {
            let v = VolumePercent::try_from(volume).unwrap();
            let byte = encode_audio_status(mute, v);
            let (decoded_mute, decoded_volume) = decode_audio_status(byte);
            assert_eq!(decoded_mute, mute);
            assert_eq!(decoded_volume, volume);
        }
    }
}

#[test]
fn audio_status_exact_bytes() {
    let v30 = VolumePercent::try_from(30).unwrap();
    assert_eq!(encode_audio_status(true, v30), 0b1000_0000 | 30);
    assert_eq!(encode_audio_status(false, v30), 30);
    let v0 = VolumePercent::try_from(0).unwrap();
    assert_eq!(encode_audio_status(true, v0), 0x80);
    let v100 = VolumePercent::try_from(100).unwrap();
    assert_eq!(encode_audio_status(false, v100), 0x64);
}

#[test]
fn volume_percent_bounds() {
    assert!(VolumePercent::try_from(101).is_err());
    assert!(VolumePercent::try_from(255).is_err());
    let v = VolumePercent::try_from(100).unwrap();
    assert_eq!(v.volume_percent(), 100);
    assert_eq!(VolumePercent::try_from(0).unwrap().volume_percent(), 0);
}

#[test]
fn datapacket_holds_pushed_bytes_in_order() {
    let mut p = Datapacket::new();
    assert!(p.is_empty());
    p.push(1);
    p.push(2);
    p.push(3);
    assert_eq!(p.len(), 3);
    assert_eq!(p.byte_at(0), 1);
    assert_eq!(p.byte_at(2), 3);
    assert_eq!(p.to_vec(), vec![1, 2, 3]);
}

#[test]
fn translate_volume_keys_whatever_the_duration() {
    assert_eq!(
        translate_key_press(UserControlCode::VolumeUp, 0),
        Some(KeyPressAction::RunVolumeUp)
    );
    assert_eq!(
        translate_key_press(UserControlCode::VolumeUp, 700),
        Some(KeyPressAction::RunVolumeUp)
    );
    assert_eq!(
        translate_key_press(UserControlCode::VolumeDown, 0),
        Some(KeyPressAction::RunVolumeDown)
    );
    assert_eq!(
        translate_key_press(UserControlCode::VolumeDown, 15),
        Some(KeyPressAction::RunVolumeDown)
    );
}

#[test]
fn translate_mute_filters_zero_duration_duplicates() {
    assert_eq!(translate_key_press(UserControlCode::Mute, 0), None);
    assert_eq!(
        translate_key_press(UserControlCode::Mute, 1),
        Some(KeyPressAction::RunMute)
    );
    assert_eq!(translate_key_press(UserControlCode::Other, 500), None);
}

#[test]
fn key_press_runs_configured_command() {
    let config = config_with(Some(&["amixer", "set", "Master", "toggle"]), None, None);
    let up = command_for_key_press(&config, UserControlCode::VolumeUp, 0).unwrap();
    assert_eq!(up.args(), &strings(&["amixer", "set", "DSPVolume", "1%+"]));
    let mute = command_for_key_press(&config, UserControlCode::Mute, 250).unwrap();
    assert_eq!(mute.args(), &strings(&["amixer", "set", "Master", "toggle"]));
    assert!(command_for_key_press(&config, UserControlCode::Mute, 0).is_none());
}

#[test]
fn key_press_mute_unconfigured_is_no_op() {
    let config = AppConfig::default();
    assert!(command_for_key_press(&config, UserControlCode::Mute, 250).is_none());
}

#[test]
fn system_audio_mode_request_is_always_accepted() {
    let cmd = received(Opcode::SystemAudioModeRequest, &[0x12, 0x34]);
    match dispatch(&cmd) {
        DispatchOutcome::Reply(reply) => {
            assert_eq!(reply.opcode, Opcode::SetSystemAudioMode);
            assert_eq!(reply.destination, LogicalAddress::Tv);
            assert_eq!(reply.initiator, LogicalAddress::AudioSystem);
            assert_eq!(reply.parameters.to_vec(), vec![0x01]);
            assert!(reply.ack);
            assert!(reply.eom);
            assert!(reply.opcode_set);
            assert_eq!(reply.transmit_timeout_ms, 500);
        }
        _ => panic!("expected a reply"),
    }
}

#[test]
fn give_system_audio_mode_status_reports_true() {
    let cmd = received(Opcode::GiveSystemAudioModeStatus, &[]);
    match dispatch(&cmd) {
        DispatchOutcome::Reply(reply) => {
            assert_eq!(reply.opcode, Opcode::SystemAudioModeStatus);
            assert_eq!(reply.parameters.to_vec(), vec![0x01]);
        }
        _ => panic!("expected a reply"),
    }
}

#[test]
fn give_audio_status_reports_unmuted_placeholder_volume() {
    let cmd = received(Opcode::GiveAudioStatus, &[]);
    match dispatch(&cmd) {
        DispatchOutcome::Reply(reply) => {
            assert_eq!(reply.opcode, Opcode::ReportAudioStatus);
            let payload = reply.parameters.to_vec();
            assert_eq!(payload.len(), 1);
            assert_eq!(payload[0] & 0x80, 0);
            assert_eq!(payload[0] & 0x7f, 50);
        }
        _ => panic!("expected a reply"),
    }
}

#[test]
fn user_control_pressed_empty_payload_is_dropped() {
    let cmd = received(Opcode::UserControlPressed, &[]);
    assert!(matches!(dispatch(&cmd), DispatchOutcome::Nothing));
}

#[test]
fn user_control_pressed_volume_keys_mirror_audio_status() {
    for &code in &[0x41u8, 0x42] {
        let cmd = received(Opcode::UserControlPressed, &[code]);
        match dispatch(&cmd) {
            DispatchOutcome::Reply(reply) => {
                assert_eq!(reply.opcode, Opcode::ReportAudioStatus);
                assert_eq!(reply.parameters.to_vec(), vec![50]);
            }
            _ => panic!("expected a reply"),
        }
    }
}

#[test]
fn user_control_pressed_other_keys_are_dropped() {
    for &code in &[0x43u8, 0x00, 0x44] {
        let cmd = received(Opcode::UserControlPressed, &[code]);
        assert!(matches!(dispatch(&cmd), DispatchOutcome::Nothing));
    }
}

#[test]
fn report_power_status_from_tv_is_forwarded() {
    let cmd = received(Opcode::ReportPowerStatus, &[0x02]);
    match dispatch(&cmd) {
        DispatchOutcome::TvPowerEvent(status) => {
            assert_eq!(status, PowerStatus::InTransitionStandbyToOn);
        }
        _ => panic!("expected a power event"),
    }
}

#[test]
fn report_power_status_ignores_other_initiators_and_bad_bytes() {
    let mut cmd = received(Opcode::ReportPowerStatus, &[0x00]);
    cmd.initiator = LogicalAddress::PlaybackDevice1;
    assert!(matches!(dispatch(&cmd), DispatchOutcome::Nothing));

    let empty = received(Opcode::ReportPowerStatus, &[]);
    assert!(matches!(dispatch(&empty), DispatchOutcome::Nothing));

    let unparsable = received(Opcode::ReportPowerStatus, &[0x17]);
    assert!(matches!(dispatch(&unparsable), DispatchOutcome::Nothing));
}

#[test]
fn unhandled_opcodes_pass_through_silently() {
    for opcode in [
        Opcode::Other,
        Opcode::SetSystemAudioMode,
        Opcode::SystemAudioModeStatus,
        Opcode::ReportAudioStatus,
        Opcode::GiveDevicePowerStatus,
    ] {
        let cmd = received(opcode, &[0x01]);
        assert!(matches!(dispatch(&cmd), DispatchOutcome::Nothing));
    }
}

#[test]
fn power_status_bytes_parse_to_their_statuses() {
    assert_eq!(power_status_from_byte(0x00), Some(PowerStatus::On));
    assert_eq!(power_status_from_byte(0x01), Some(PowerStatus::Standby));
    assert_eq!(
        power_status_from_byte(0x02),
        Some(PowerStatus::InTransitionStandbyToOn)
    );
    assert_eq!(
        power_status_from_byte(0x03),
        Some(PowerStatus::InTransitionOnToStandby)
    );
    assert_eq!(power_status_from_byte(0x99), Some(PowerStatus::Unknown));
    assert_eq!(power_status_from_byte(0x04), None);
}

#[test]
fn transition_sequence_triggers_turn_on_exactly_once() {
    let reports = [
        PowerStatus::On,
        PowerStatus::InTransitionStandbyToOn,
        PowerStatus::On,
    ];
    let fired: Vec<Option<TvTransition>> =
        reports.iter().map(|&s| transition_action(s)).collect();
    assert_eq!(fired[0], None);
    assert_eq!(fired[1], Some(TvTransition::TurnedOn));
    assert_eq!(fired[2], None);
    let count = fired.iter().filter(|f| f.is_some()).count();
    assert_eq!(count, 1);
}

#[test]
fn steady_states_and_turn_off_transition() {
    assert_eq!(transition_action(PowerStatus::Standby), None);
    assert_eq!(transition_action(PowerStatus::Unknown), None);
    assert_eq!(
        transition_action(PowerStatus::InTransitionOnToStandby),
        Some(TvTransition::TurnedOff)
    );
}

#[test]
fn transition_runs_only_configured_actions() {
    let config = config_with(None, Some(&["sh", "-c", "true"]), None);
    let on = template_for_transition(&config, TvTransition::TurnedOn).unwrap();
    assert_eq!(on.args(), &strings(&["sh", "-c", "true"]));
    assert!(template_for_transition(&config, TvTransition::TurnedOff).is_none());
}

#[test]
fn power_status_request_is_addressed_to_the_tv() {
    let request = power_status_request();
    assert_eq!(request.initiator, LogicalAddress::AudioSystem);
    assert_eq!(request.destination, LogicalAddress::Tv);
    assert_eq!(request.opcode, Opcode::GiveDevicePowerStatus);
    assert!(request.parameters.to_vec().is_empty());
    assert!(request.ack);
    assert!(request.eom);
    assert!(request.opcode_set);
    assert_eq!(request.transmit_timeout_ms, 1000);
}

#[test]
fn queue_transmits_in_enqueue_order() {
    let mut queue = OutgoingQueue::new();
    assert!(queue.is_empty());
    let r1 = received(Opcode::SetSystemAudioMode, &[0x01]);
    let r2 = received(Opcode::ReportAudioStatus, &[0x32]);
    queue.enqueue(r1);
    queue.enqueue(r2);
    assert_eq!(queue.len(), 2);
    let first = queue.dequeue().unwrap();
    assert_eq!(first.opcode, Opcode::SetSystemAudioMode);
    let second = queue.dequeue().unwrap();
    assert_eq!(second.opcode, Opcode::ReportAudioStatus);
    assert!(queue.dequeue().is_none());
}

#[test]
fn default_config_matches_the_documented_defaults() {
    let config = AppConfig::default();
    assert_eq!(config.hdmi_port, "");
    assert_eq!(config.device_name, "Hifiberry");
    assert_eq!(
        config.vol_up_command.args(),
        &strings(&["amixer", "set", "DSPVolume", "1%+"])
    );
    assert_eq!(
        config.vol_down_command.args(),
        &strings(&["amixer", "set", "DSPVolume", "1%-"])
    );
    assert!(config.mute_command.is_none());
    assert!(config.tv_turned_on_command.is_none());
    assert!(config.tv_turned_off_command.is_none());
    assert_eq!(config.power_poll_interval_ms, 5000);
}

#[test]
fn default_helpers_match_the_defaults() {
    assert_eq!(default_hdmi_port(), "");
    assert_eq!(default_device_name(), "Hifiberry");
    assert_eq!(
        default_volume_up().args(),
        &strings(&["amixer", "set", "DSPVolume", "1%+"])
    );
    assert_eq!(
        default_volume_down().args(),
        &strings(&["amixer", "set", "DSPVolume", "1%-"])
    );
    assert_eq!(default_power_poll_interval_ms(), 5000);
}

#[test]
fn polling_is_enabled_only_with_a_transition_action() {
    assert!(!power_polling_enabled(&AppConfig::default()));
    assert!(power_polling_enabled(&config_with(
        None,
        Some(&["sh", "-c", "true"]),
        None
    )));
    assert!(power_polling_enabled(&config_with(
        None,
        None,
        Some(&["sh", "-c", "true"])
    )));
}

#[test]
fn empty_port_leaves_detection_to_the_adapter() {
    let defaults = AppConfig::default();
    assert!(configured_port(&defaults).is_none());
    let with_port = AppConfig {
        hdmi_port: "/dev/ttyACM0".to_string(),
        ..AppConfig::default()
    };
    assert_eq!(configured_port(&with_port), Some(&"/dev/ttyACM0".to_string()));
}

#[test]
fn template_from_args_rejects_an_empty_argv() {
    assert!(CommandTemplate::from_args(Vec::new()).is_none());
    let template = CommandTemplate::from_args(strings(&["aplay", "chime.wav"])).unwrap();
    assert_eq!(template.args(), &strings(&["aplay", "chime.wav"]));
}
