//! Configuration for the greeter.
use vstd::prelude::*;
use vstd::string::*;

use crate::cmdline::shlex_split;
use crate::cmdline::split;
use crate::cmdline::words_view;
use crate::constants::GREETING_MSG;
use crate::constants::POWEROFF_CMD;
use crate::constants::REBOOT_CMD;
use crate::constants::X11_CMD_PREFIX;
use crate::string_map::StringMap;

verus! {

/// The configuration struct.
#[derive(Debug)]
pub struct Config {
    pub appearance: AppearanceConfig,
    pub background: BackgroundConfig,
    pub commands: SystemCommandsConfig,
    /// The environment that a session is started with.
    pub env: StringMap<String>,
}

impl Config {
    /// The configuration that is used where none is given: the default of
    /// each part, and an empty environment.  There is none where one of the
    /// default commands cannot be split into words.
    pub fn try_default() -> (r: Option<Self>)
        ensures
            match r {
                Some(config) => {
                    &&& config.appearance.greeting_msg@ == GREETING_MSG@
                    &&& config.background.path is None
                    &&& config.background.fit is Contain
                    &&& Some(config.commands@) == default_commands()
                    &&& config.env@ == Map::<Seq<char>, String>::empty()
                },
                None => default_commands() is None,
            },
    {
        match SystemCommandsConfig::try_default() {
            Some(commands) => Some(
                Config {
                    appearance: AppearanceConfig::default(),
                    background: BackgroundConfig::default(),
                    commands,
                    env: StringMap::new(),
                },
            ),
            None => None,
        }
    }
}

/// How the greeter looks.
#[derive(Debug, Clone, PartialEq, Eq)]
pub struct AppearanceConfig {
    pub greeting_msg: String,
}

impl Default for AppearanceConfig {
    fn default() -> (r: Self)
        ensures
            r.greeting_msg@ == GREETING_MSG@,
    {
        AppearanceConfig { greeting_msg: default_greeting_msg() }
    }
}

/// Struct for info about the background image.
#[derive(Debug, Clone, PartialEq, Eq)]
pub struct BackgroundConfig {
    /// The path of the image, if there is one.
    pub path: Option<String>,
    pub fit: BgFit,
}

impl Default for BackgroundConfig {
    fn default() -> (r: Self)
        ensures
            r.path is None,
            r.fit is Contain,
    {
        BackgroundConfig { path: None, fit: BgFit::default() }
    }
}

/// How the background image is fitted into the window.
#[derive(Debug, Clone, Copy, PartialEq, Eq, Structural)]
pub enum BgFit {
    Fill,
    Contain,
    Cover,
    ScaleDown,
}

impl Default for BgFit {
    fn default() -> (r: Self)
        ensures
            r is Contain,
    {
        BgFit::Contain
    }
}

/// Struct for reboot/poweroff commands.
#[derive(Debug, Clone, PartialEq, Eq)]
pub struct SystemCommandsConfig {
    pub reboot: Vec<String>,
    pub poweroff: Vec<String>,
    pub x11_prefix: Vec<String>,
}

/// What a [`SystemCommandsConfig`] holds, as mathematical values.
pub struct SystemCommandsConfigView {
    pub reboot: Seq<Seq<char>>,
    pub poweroff: Seq<Seq<char>>,
    pub x11_prefix: Seq<Seq<char>>,
}

impl View for SystemCommandsConfig {
    type V = SystemCommandsConfigView;

    open spec fn view(&self) -> SystemCommandsConfigView {
        SystemCommandsConfigView {
            reboot: self.reboot.deep_view(),
            poweroff: self.poweroff.deep_view(),
            x11_prefix: self.x11_prefix.deep_view(),
        }
    }
}

/// The commands that are used where none are configured: the words of the
/// default command lines.  There are none where one of the lines cannot be
/// split into words.
pub open spec fn default_commands() -> Option<SystemCommandsConfigView> {
    match (shlex_split(REBOOT_CMD@), shlex_split(POWEROFF_CMD@), shlex_split(X11_CMD_PREFIX@)) {
        (Some(reboot), Some(poweroff), Some(x11_prefix)) => Some(
            SystemCommandsConfigView { reboot, poweroff, x11_prefix },
        ),
        _ => None,
    }
}

impl SystemCommandsConfig {
    /// The commands that are used where none are configured.
    pub fn try_default() -> (r: Option<Self>)
        ensures
            match r {
                Some(commands) => Some(commands@) == default_commands(),
                None => default_commands() is None,
            },
    {
        match (default_reboot_command(), default_poweroff_command(), default_x11_command_prefix()) {
            (Some(reboot), Some(poweroff), Some(x11_prefix)) => Some(
                SystemCommandsConfig { reboot, poweroff, x11_prefix },
            ),
            _ => None,
        }
    }
}

/// The greeting that is shown where none is configured.
pub fn default_greeting_msg() -> (r: String)
    ensures
        r@ == GREETING_MSG@,
{
    GREETING_MSG.to_owned()
}

/// The words of the command that reboots the system where none is
/// configured.
pub fn default_reboot_command() -> (r: Option<Vec<String>>)
    ensures
        words_view(r) == shlex_split(REBOOT_CMD@),
{
    split(REBOOT_CMD)
}

/// The words of the command that powers the system off where none is
/// configured.
pub fn default_poweroff_command() -> (r: Option<Vec<String>>)
    ensures
        words_view(r) == shlex_split(POWEROFF_CMD@),
{
    split(POWEROFF_CMD)
}

/// The words that are put before the command of an X11 session where none
/// are configured.
pub fn default_x11_command_prefix() -> (r: Option<Vec<String>>)
    ensures
        words_view(r) == shlex_split(X11_CMD_PREFIX@),
{
    split(X11_CMD_PREFIX)
}

} // verus!
