//! Switches the profile of Terminal.app.
//!
//! A script handed to `osascript` makes the named profile the default and
//! the startup profile, and gives it to every open tab.  Without a section
//! of its own, Terminal.app switches between Basic and Pro.

use vstd::prelude::*;

use crate::config::Config as ThconConfig;
use crate::disableable::{AppConfig, Disableable};
use crate::operation::Operation;
use crate::plan::{pair, wrap, Command, CommandView, Plan, PlanView};
use crate::section::{peek, spec_peek, Section};
use crate::themeable::{ConfigError, ConfigState, Themeable};

verus! {

/// The script up to the profile's name.
pub const SCRIPT_HEAD: &'static str =
    "tell application \"Terminal\"\n                      set new_settings to first settings set whose name is \"";

/// The script after the profile's name.
pub const SCRIPT_TAIL: &'static str =
    "\"\n\n                      set default settings to new_settings\n                      set startup settings to new_settings\n\n                      set current settings of every tab of every window to new_settings\n                    end tell";

/// The `terminal-app` section.
#[derive(Debug)]
pub struct _Config {
    /// The profile to use in light mode.
    pub light: String,
    /// The profile to use in dark mode.
    pub dark: String,
    /// Whether Terminal.app is left alone.
    pub disabled: bool,
}

impl _Config {
    /// The profile that the operation selects.
    pub open spec fn theme(&self, operation: Operation) -> Seq<char> {
        match operation {
            Operation::Lighten => self.light@,
            Operation::Darken => self.dark@,
        }
    }
}

impl Default for _Config {
    fn default() -> (settings: Self)
        ensures
            settings.light@ == "Basic"@,
            settings.dark@ == "Pro"@,
            !settings.disabled,
    {
        _Config {
            light: String::from_str("Basic"),
            dark: String::from_str("Pro"),
            disabled: false,
        }
    }
}

impl Disableable for _Config {
    open spec fn is_disabled(&self) -> bool {
        self.disabled
    }

    fn disabled(&self) -> (b: bool) {
        self.disabled
    }
}

impl AppConfig for _Config {

}

/// What the configuration file holds for Terminal.app.
pub type Config = Section<_Config>;

/// Apple's Terminal.app.
#[derive(Debug)]
pub struct TerminalDotApp;

impl TerminalDotApp {
    /// The profile that applies without a section.
    pub open spec fn default_theme(operation: Operation) -> Seq<char> {
        match operation {
            Operation::Lighten => "Basic"@,
            Operation::Darken => "Pro"@,
        }
    }

    /// The command that applies a profile.  Its exit status is not looked
    /// at.
    pub open spec fn command(profile: Seq<char>) -> CommandView {
        CommandView {
            program: "osascript"@,
            args: seq!["-e"@, SCRIPT_HEAD@ + profile + SCRIPT_TAIL@],
            silence_stderr: false,
            must_succeed: false,
            failure: "Failed to execute `osascript`"@,
        }
    }
}

impl Themeable for TerminalDotApp {
    open spec fn state_of(&self, config: &ThconConfig) -> ConfigState {
        ConfigState::defaulted(spec_peek(&config.terminal_dot_app))
    }

    open spec fn ready(&self, config: &ThconConfig, operation: Operation) -> bool {
        true
    }

    open spec fn plan_of(&self, config: &ThconConfig, operation: Operation) -> Result<
        PlanView,
        Seq<char>,
    > {
        match self.state_of(config) {
            ConfigState::Disabled => Ok(PlanView::Nothing),
            ConfigState::Enabled => Ok(
                PlanView::Run(
                    Self::command(config.terminal_dot_app->0.settings().theme(operation)),
                ),
            ),
            _ => Ok(PlanView::Run(Self::command(Self::default_theme(operation)))),
        }
    }

    fn config_state(&self, config: &ThconConfig) -> (state: ConfigState) {
        ConfigState::with_default_config(peek(&config.terminal_dot_app))
    }

    fn can_switch(&self, config: &ThconConfig, operation: &Operation) -> (ready: bool) {
        true
    }

    fn switch(&self, config: &ThconConfig, operation: &Operation) -> (outcome: Result<
        Plan,
        ConfigError,
    >) {
        let default_config = _Config::default();
        let settings = match self.config_state(config) {
            ConfigState::NoDefault => unreached(),
            ConfigState::Disabled => return Ok(Plan::Nothing),
            ConfigState::Default => &default_config,
            ConfigState::Enabled => match &config.terminal_dot_app {
                Some(section) => section.unwrap_inner_left(),
                None => unreached(),
            },
        };
        let profile_name = match operation {
            Operation::Lighten => &settings.light,
            Operation::Darken => &settings.dark,
        };
        let script = wrap(SCRIPT_HEAD, profile_name.as_str(), SCRIPT_TAIL);
        Ok(
            Plan::Run(
                Command {
                    program: String::from_str("osascript"),
                    args: pair("-e", script.as_str()),
                    silence_stderr: false,
                    must_succeed: false,
                    failure: String::from_str("Failed to execute `osascript`"),
                },
            ),
        )
    }
}

} // verus!
