//! The configuration record: the argv templates bound to the
//! semantic triggers, the adapter's port and device name, and the
//! power-poll interval, with the built-in defaults.
use vstd::prelude::*;

verus! {

/// An argv - a program and its arguments - bound to a semantic
/// trigger (volume up, volume down, mute, TV turned on or off) by the
/// configuration. Immutable for the process lifetime and invoked by
/// value each time it fires.
#[derive(Debug)]
pub struct CommandTemplate(Vec<String>);

impl View for CommandTemplate {
    type V = Seq<Seq<char>>;

    closed spec fn view(&self) -> Seq<Seq<char>> {
        self.0.deep_view()
    }
}

impl CommandTemplate {
    /// A template over the given argv, kept as it is.
    pub fn new(args: Vec<String>) -> (r: CommandTemplate)
        ensures
            r@ == args.deep_view(),
    {
        CommandTemplate(args)
    }

    /// A template from an argv list, rejecting an empty one: a
    /// template with no program to run is no template at all.
    pub fn from_args(args: Vec<String>) -> (r: Option<CommandTemplate>)
        ensures
            args@.len() > 0 ==> (r matches Some(t) && t@ == args.deep_view()),
            args@.len() == 0 ==> r is None,
    {
        if args.len() == 0 {
            None
        } else {
            Some(CommandTemplate(args))
        }
    }

    /// The argv the template holds.
    pub fn args(&self) -> (r: &Vec<String>)
        ensures
            r.deep_view() == self@,
    {
        &self.0
    }
}

/// The process-wide configuration, constructed once at startup and
/// read by every component.
pub struct AppConfig {
    /// The adapter port; empty means adapter auto-detect.
    pub hdmi_port: String,
    pub device_name: String,
    pub vol_up_command: CommandTemplate,
    pub vol_down_command: CommandTemplate,
    pub mute_command: Option<CommandTemplate>,
    pub tv_turned_on_command: Option<CommandTemplate>,
    pub tv_turned_off_command: Option<CommandTemplate>,
    pub power_poll_interval_ms: u64,
}

/// The port to hand the adapter: the configured port when one is
/// given, or nothing when the field is empty, leaving detection to
/// the adapter.
pub fn configured_port(config: &AppConfig) -> (r: Option<&String>)
    ensures
        config.hdmi_port@.len() == 0 ==> r is None,
        config.hdmi_port@.len() > 0 ==> (r matches Some(p) && p@ == config.hdmi_port@),
{
    if config.hdmi_port.as_str().unicode_len() == 0 {
        None
    } else {
        Some(&config.hdmi_port)
    }
}

/// The default volume-up argv.
pub fn default_volume_up() -> (r: CommandTemplate)
    ensures
        r@ == seq!["amixer"@, "set"@, "DSPVolume"@, "1%+"@],
{
    let mut args: Vec<String> = Vec::new();
    args.push(String::from_str("amixer"));
    args.push(String::from_str("set"));
    args.push(String::from_str("DSPVolume"));
    args.push(String::from_str("1%+"));
    proof {
        assert(args.deep_view() =~= seq!["amixer"@, "set"@, "DSPVolume"@, "1%+"@]);
    }
    CommandTemplate::new(args)
}

/// The default volume-down argv.
pub fn default_volume_down() -> (r: CommandTemplate)
    ensures
        r@ == seq!["amixer"@, "set"@, "DSPVolume"@, "1%-"@],
{
    let mut args: Vec<String> = Vec::new();
    args.push(String::from_str("amixer"));
    args.push(String::from_str("set"));
    args.push(String::from_str("DSPVolume"));
    args.push(String::from_str("1%-"));
    proof {
        assert(args.deep_view() =~= seq!["amixer"@, "set"@, "DSPVolume"@, "1%-"@]);
    }
    CommandTemplate::new(args)
}

/// The default device name the adapter announces.
pub fn default_device_name() -> (r: String)
    ensures
        r@ == "Hifiberry"@,
{
    String::from_str("Hifiberry")
}

/// The default port: empty, leaving detection to the adapter.
pub fn default_hdmi_port() -> (r: String)
    ensures
        r@ == ""@,
{
    String::from_str("")
}

/// The default power-poll interval, in milliseconds.
pub fn default_power_poll_interval_ms() -> (r: u64)
    ensures
        r == 5000,
{
    5000
}

impl Default for AppConfig {
    /// The configuration an absent or empty configuration file gives:
    /// every field at its default, the optional actions unbound.
    fn default() -> (r: AppConfig)
        ensures
            r.hdmi_port@ == ""@,
            r.device_name@ == "Hifiberry"@,
            r.vol_up_command@ == seq!["amixer"@, "set"@, "DSPVolume"@, "1%+"@],
            r.vol_down_command@ == seq!["amixer"@, "set"@, "DSPVolume"@, "1%-"@],
            r.mute_command is None,
            r.tv_turned_on_command is None,
            r.tv_turned_off_command is None,
            r.power_poll_interval_ms == 5000,
    {
        AppConfig {
            hdmi_port: default_hdmi_port(),
            device_name: default_device_name(),
            vol_up_command: default_volume_up(),
            vol_down_command: default_volume_down(),
            mute_command: None,
            tv_turned_on_command: None,
            tv_turned_off_command: None,
            power_poll_interval_ms: default_power_poll_interval_ms(),
        }
    }
}

} // verus!
