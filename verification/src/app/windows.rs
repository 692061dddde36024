//! Switches Windows between its light and dark appearance.
//!
//! Windows keeps one flag for applications and one for the system itself
//! in the registry; both get the same value.  The section holds nothing
//! but the `disabled` switch.

use vstd::prelude::*;

use crate::config::Config as ThconConfig;
use crate::disableable::{AppConfig, Disableable};
use crate::operation::Operation;
use crate::plan::{Plan, PlanView};
use crate::section::{peek, spec_peek, Section};
use crate::themeable::{ConfigError, ConfigState, Themeable};

verus! {

/// The registry key, below the current user, that holds both flags.
pub const PERSONALIZE: &'static str =
    "SOFTWARE\\Microsoft\\Windows\\CurrentVersion\\Themes\\Personalize";

/// The flag that applications follow.
pub const APPS_USE_LIGHT_THEME: &'static str = "AppsUseLightTheme";

/// The flag that the system follows.
pub const SYSTEM_USES_LIGHT_THEME: &'static str = "SystemUsesLightTheme";

/// The `windows` section.
#[derive(Debug)]
pub struct _Config {
    /// Whether Windows is left alone.
    pub disabled: bool,
}

impl Disableable for _Config {
    open spec fn is_disabled(&self) -> bool {
        self.disabled
    }

    fn disabled(&self) -> (b: bool) {
        self.disabled
    }
}

impl AppConfig for _Config {

}

/// What the configuration file holds for Windows.
pub type Config = Section<_Config>;

/// The Windows desktop.
#[derive(Debug)]
pub struct Windows;

impl Windows {
    /// The value of both flags: 1 for light, 0 for dark.
    pub open spec fn light_flag(operation: Operation) -> u32 {
        match operation {
            Operation::Lighten => 1,
            Operation::Darken => 0,
        }
    }
}

impl Themeable for Windows {
    open spec fn state_of(&self, config: &ThconConfig) -> ConfigState {
        ConfigState::defaulted(spec_peek(&config.windows))
    }

    open spec fn ready(&self, config: &ThconConfig, operation: Operation) -> bool {
        true
    }

    /// The flags are written whatever the section says.
    open spec fn plan_of(&self, config: &ThconConfig, operation: Operation) -> Result<
        PlanView,
        Seq<char>,
    > {
        Ok(PlanView::Windows { light: Self::light_flag(operation) })
    }

    fn config_state(&self, config: &ThconConfig) -> (state: ConfigState) {
        ConfigState::with_default_config(peek(&config.windows))
    }

    fn can_switch(&self, config: &ThconConfig, operation: &Operation) -> (ready: bool) {
        true
    }

    fn switch(&self, config: &ThconConfig, operation: &Operation) -> (outcome: Result<
        Plan,
        ConfigError,
    >) {
        let should_use_light_theme: u32 = match operation {
            Operation::Lighten => 1,
            Operation::Darken => 0,
        };
        Ok(Plan::Windows { light: should_use_light_theme })
    }
}

} // verus!
