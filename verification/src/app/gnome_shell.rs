//! Switches the user theme of GNOME Shell.
//!
//! The theme's name is stored under the `name` key of the User Themes
//! extension.  There are no built-in themes to fall back on, so the
//! section has to name both.

use vstd::prelude::*;

use crate::config::Config as ThconConfig;
use crate::disableable::{AppConfig, Disableable};
use crate::operation::Operation;
use crate::plan::{wrap, Plan, PlanView, Setting, SettingView};
use crate::section::{peek, spec_peek, Section};
use crate::themeable::{ConfigError, ConfigState, Themeable};

verus! {

/// The `gnome-shell` section.
#[derive(Debug)]
pub struct _Config {
    /// The user theme to use in light mode.
    pub light: String,
    /// The user theme to use in dark mode.
    pub dark: String,
    /// Whether GNOME Shell is left alone.
    pub disabled: bool,
}

impl _Config {
    /// The theme that the operation selects.
    pub open spec fn theme(&self, operation: Operation) -> Seq<char> {
        match operation {
            Operation::Darken => self.dark@,
            Operation::Lighten => self.light@,
        }
    }
}

impl Disableable for _Config {
    open spec fn is_disabled(&self) -> bool {
        self.disabled
    }

    fn disabled(&self) -> (b: bool) {
        self.disabled
    }
}

impl AppConfig for _Config {

}

/// What the configuration file holds for GNOME Shell.
pub type Config = Section<_Config>;

/// The GNOME Shell.
#[derive(Debug)]
pub struct GnomeShell {}

impl GnomeShell {
    /// The setting that applies a user theme.
    pub open spec fn setting(theme: Seq<char>) -> SettingView {
        SettingView {
            schema: "org.gnome.shell.extensions.user-theme"@,
            key: "name"@,
            value: theme,
            failure: "Unable to apply GNOME Shell user theme '"@ + theme + "'"@,
        }
    }
}

impl Themeable for GnomeShell {
    open spec fn state_of(&self, config: &ThconConfig) -> ConfigState {
        ConfigState::manual(spec_peek(&config.gnome_shell))
    }

    open spec fn ready(&self, config: &ThconConfig, operation: Operation) -> bool {
        self.state_of(config) != ConfigState::Default
    }

    open spec fn plan_of(&self, config: &ThconConfig, operation: Operation) -> Result<
        PlanView,
        Seq<char>,
    > {
        match self.state_of(config) {
            ConfigState::NoDefault => Err(
                ConfigError::RequiresManualConfig("gnome_shell").spec_message(),
            ),
            ConfigState::Disabled => Ok(PlanView::Nothing),
            _ => Ok(
                PlanView::Store(Self::setting(config.gnome_shell->0.settings().theme(operation))),
            ),
        }
    }

    fn config_state(&self, config: &ThconConfig) -> (state: ConfigState) {
        ConfigState::with_manual_config(peek(&config.gnome_shell))
    }

    fn can_switch(&self, config: &ThconConfig, operation: &Operation) -> (ready: bool) {
        match self.config_state(config) {
            ConfigState::Default => false,
            _ => true,
        }
    }

    fn switch(&self, config: &ThconConfig, operation: &Operation) -> (outcome: Result<
        Plan,
        ConfigError,
    >) {
        let settings = match self.config_state(config) {
            ConfigState::NoDefault => {
                return Err(ConfigError::RequiresManualConfig("gnome_shell"))
            },
            ConfigState::Default => unreached(),
            ConfigState::Disabled => return Ok(Plan::Nothing),
            ConfigState::Enabled => match &config.gnome_shell {
                Some(section) => section.unwrap_inner_left(),
                None => unreached(),
            },
        };
        let theme = match operation {
            Operation::Darken => &settings.dark,
            Operation::Lighten => &settings.light,
        };
        Ok(
            Plan::Store(
                Setting {
                    schema: String::from_str("org.gnome.shell.extensions.user-theme"),
                    key: String::from_str("name"),
                    value: theme.clone(),
                    failure: wrap("Unable to apply GNOME Shell user theme '", theme.as_str(), "'"),
                },
            ),
        )
    }
}

} // verus!
