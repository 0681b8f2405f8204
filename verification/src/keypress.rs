//! The key-press translator: maps a remote-control key and a press
//! duration to the external action to run, filtering the adapter's
//! spurious duplicate mute events.
use vstd::prelude::*;
use crate::config::{AppConfig, CommandTemplate};
use crate::types::UserControlCode;

verus! {

/// The external action a key press asks for.
#[derive(Clone, Copy, Debug, PartialEq, Eq, Structural)]
pub enum KeyPressAction {
    RunVolumeUp,
    RunVolumeDown,
    RunMute,
}

/// Translates one key press. The volume keys always translate, repeat
/// key-down events included. Mute translates only when the duration is
/// non-zero: the adapter emits a duplicate zero-duration event per
/// mute press, which must be suppressed to avoid double-toggling.
/// Unmapped keys yield nothing.
pub fn translate_key_press(keycode: UserControlCode, duration_ms: u64) -> (r: Option<
    KeyPressAction,
>)
    ensures
        keycode is VolumeUp ==> r == Some(KeyPressAction::RunVolumeUp),
        keycode is VolumeDown ==> r == Some(KeyPressAction::RunVolumeDown),
        keycode is Mute && duration_ms == 0 ==> r is None,
        keycode is Mute && duration_ms > 0 ==> r == Some(KeyPressAction::RunMute),
        keycode is Other ==> r is None,
{
    match keycode {
        UserControlCode::VolumeUp => Some(KeyPressAction::RunVolumeUp),
        UserControlCode::VolumeDown => Some(KeyPressAction::RunVolumeDown),
        UserControlCode::Mute => {
            if duration_ms == 0 {
                None
            } else {
                Some(KeyPressAction::RunMute)
            }
        },
        UserControlCode::Other => None,
    }
}

/// The configured argv a translated action invokes. The volume
/// commands are always configured; mute may be unbound, which makes
/// the press a no-op.
pub fn template_for_action<'a>(config: &'a AppConfig, action: KeyPressAction) -> (r: Option<
    &'a CommandTemplate,
>)
    ensures
        action is RunVolumeUp ==> (r matches Some(t) && t@ == config.vol_up_command@),
        action is RunVolumeDown ==> (r matches Some(t) && t@ == config.vol_down_command@),
        action is RunMute ==> (match config.mute_command {
            Some(m) => r matches Some(t) && t@ == m@,
            None => r is None,
        }),
{
    match action {
        KeyPressAction::RunVolumeUp => Some(&config.vol_up_command),
        KeyPressAction::RunVolumeDown => Some(&config.vol_down_command),
        KeyPressAction::RunMute => config.mute_command.as_ref(),
    }
}

/// The whole key-press decision: which configured argv, if any, one
/// key press runs.
pub fn command_for_key_press<'a>(
    config: &'a AppConfig,
    keycode: UserControlCode,
    duration_ms: u64,
) -> (r: Option<&'a CommandTemplate>)
    ensures
        keycode is VolumeUp ==> (r matches Some(t) && t@ == config.vol_up_command@),
        keycode is VolumeDown ==> (r matches Some(t) && t@ == config.vol_down_command@),
        keycode is Mute && duration_ms > 0 ==> (match config.mute_command {
            Some(m) => r matches Some(t) && t@ == m@,
            None => r is None,
        }),
        keycode is Mute && duration_ms == 0 ==> r is None,
        keycode is Other ==> r is None,
{
    match translate_key_press(keycode, duration_ms) {
        Some(action) => template_for_action(config, action),
        None => None,
    }
}

} // verus!
