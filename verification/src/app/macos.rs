//! Switches macOS between its light and dark appearance.
//!
//! The appearance is set through System Events, with a one-line script
//! handed to `osascript`.  The section holds nothing but the `disabled`
//! switch.

use vstd::prelude::*;

use crate::config::Config as ThconConfig;
use crate::disableable::{AppConfig, Disableable};
use crate::operation::Operation;
use crate::plan::{pair, Command, CommandView, Plan, PlanView};
use crate::section::{peek, spec_peek, Section};
use crate::themeable::{ConfigError, ConfigState, Themeable};

verus! {

/// The script up to the value of the dark mode.
pub const SCRIPT: &'static str =
    "tell app \"System Events\" to tell appearance preferences to set dark mode to ";

/// The `macos` section.
#[derive(Debug)]
pub struct _Config {
    /// Whether macOS is left alone.
    pub disabled: bool,
}

impl Disableable for _Config {
    open spec fn is_disabled(&self) -> bool {
        self.disabled
    }

    fn disabled(&self) -> (b: bool) {
        self.disabled
    }
}

impl AppConfig for _Config {

}

/// What the configuration file holds for macOS.
pub type Config = Section<_Config>;

/// The macOS desktop.
#[derive(Debug)]
pub struct MacOS;

impl MacOS {
    /// The command that sets the dark mode.
    pub open spec fn command(operation: Operation) -> CommandView {
        CommandView {
            program: "osascript"@,
            args: seq![
                "-e"@,
                SCRIPT@ + (match operation {
                    Operation::Lighten => "false"@,
                    Operation::Darken => "true"@,
                }),
            ],
            silence_stderr: false,
            must_succeed: true,
            failure: "Failed to execute 'osascript'"@,
        }
    }
}

impl Themeable for MacOS {
    open spec fn state_of(&self, config: &ThconConfig) -> ConfigState {
        ConfigState::defaulted(spec_peek(&config.macos))
    }

    open spec fn ready(&self, config: &ThconConfig, operation: Operation) -> bool {
        true
    }

    open spec fn plan_of(&self, config: &ThconConfig, operation: Operation) -> Result<
        PlanView,
        Seq<char>,
    > {
        match self.state_of(config) {
            ConfigState::Disabled => Ok(PlanView::Nothing),
            _ => Ok(PlanView::Run(Self::command(operation))),
        }
    }

    fn config_state(&self, config: &ThconConfig) -> (state: ConfigState) {
        ConfigState::with_default_config(peek(&config.macos))
    }

    fn can_switch(&self, config: &ThconConfig, operation: &Operation) -> (ready: bool) {
        true
    }

    fn switch(&self, config: &ThconConfig, operation: &Operation) -> (outcome: Result<
        Plan,
        ConfigError,
    >) {
        match self.config_state(config) {
            ConfigState::NoDefault => unreached(),
            ConfigState::Default => (),
            ConfigState::Disabled => return Ok(Plan::Nothing),
            ConfigState::Enabled => (),
        };
        let dark_mode = match operation {
            Operation::Lighten => "false",
            Operation::Darken => "true",
        };
        let mut script = String::from_str(SCRIPT);
        script.append(dark_mode);
        Ok(
            Plan::Run(
                Command {
                    program: String::from_str("osascript"),
                    args: pair("-e", script.as_str()),
                    silence_stderr: false,
                    must_succeed: true,
                    failure: String::from_str("Failed to execute 'osascript'"),
                },
            ),
        )
    }
}

} // verus!
