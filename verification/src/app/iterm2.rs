//! Switches the profile of iTerm2.
//!
//! iTerm2 runs a companion script that listens on a socket shared by all
//! of its windows; the profile's name is sent there.  There are no built-in
//! profiles to fall back on, so the section has to name both.

use vstd::prelude::*;

use crate::config::Config as ThconConfig;
use crate::disableable::{AppConfig, Disableable};
use crate::operation::Operation;
use crate::plan::{Plan, PlanView};
use crate::section::{peek, spec_peek, Section};
use crate::themeable::{ConfigError, ConfigState, Themeable};

verus! {

/// The `iterm2` section.
#[derive(Debug)]
pub struct _Config {
    /// The profile to use in dark mode.
    pub dark: String,
    /// The profile to use in light mode.
    pub light: String,
    /// Whether iTerm2 is left alone.
    pub disabled: bool,
}

impl _Config {
    /// The profile that the operation selects.
    pub open spec fn theme(&self, operation: Operation) -> Seq<char> {
        match operation {
            Operation::Darken => self.dark@,
            Operation::Lighten => self.light@,
        }
    }
}

impl Disableable for _Config {
    open spec fn is_disabled(&self) -> bool {
        self.disabled
    }

    fn disabled(&self) -> (b: bool) {
        self.disabled
    }
}

impl AppConfig for _Config {

}

/// What the configuration file holds for iTerm2.
pub type Config = Section<_Config>;

/// The message that iTerm2's companion script reads.
#[derive(Debug, Clone, PartialEq, Eq)]
pub struct WireConfig {
    /// The profile to change to.
    pub profile: String,
}

impl View for WireConfig {
    type V = Seq<char>;

    open spec fn view(&self) -> Seq<char> {
        self.profile@
    }
}

/// The iTerm2 terminal.
#[derive(Debug)]
pub struct Iterm2;

impl Iterm2 {
    /// The message for a plan of this application: the plan's profile.
    pub fn wire_config(profile: &str) -> (message: WireConfig)
        ensures
            message@ == profile@,
    {
        WireConfig { profile: String::from_str(profile) }
    }
}

impl Themeable for Iterm2 {
    open spec fn state_of(&self, config: &ThconConfig) -> ConfigState {
        ConfigState::manual(spec_peek(&config.iterm2))
    }

    open spec fn ready(&self, config: &ThconConfig, operation: Operation) -> bool {
        self.state_of(config) != ConfigState::Default
    }

    open spec fn plan_of(&self, config: &ThconConfig, operation: Operation) -> Result<
        PlanView,
        Seq<char>,
    > {
        match self.state_of(config) {
            ConfigState::NoDefault => Err(
                ConfigError::RequiresManualConfig("iterm2").spec_message(),
            ),
            ConfigState::Disabled => Ok(PlanView::Nothing),
            _ => Ok(
                PlanView::Iterm2 { profile: config.iterm2->0.settings().theme(operation) },
            ),
        }
    }

    fn config_state(&self, config: &ThconConfig) -> (state: ConfigState) {
        ConfigState::with_manual_config(peek(&config.iterm2))
    }

    fn can_switch(&self, config: &ThconConfig, operation: &Operation) -> (ready: bool) {
        match self.config_state(config) {
            ConfigState::Default => false,
            _ => true,
        }
    }

    fn switch(&self, config: &ThconConfig, operation: &Operation) -> (outcome: Result<
        Plan,
        ConfigError,
    >) {
        let settings = match self.config_state(config) {
            ConfigState::NoDefault => {
                return Err(ConfigError::RequiresManualConfig("iterm2"))
            },
            ConfigState::Default => unreached(),
            ConfigState::Disabled => return Ok(Plan::Nothing),
            ConfigState::Enabled => match &config.iterm2 {
                Some(section) => section.unwrap_inner_left(),
                None => unreached(),
            },
        };
        let profile_name = match operation {
            Operation::Darken => &settings.dark,
            Operation::Lighten => &settings.light,
        };
        Ok(Plan::Iterm2 { profile: profile_name.clone() })
    }
}

} // verus!
