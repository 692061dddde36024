//! Switches the GTK theme.
//!
//! The theme's name is stored under the `gtk-theme` key of the desktop
//! interface settings.  Without a section of its own, GTK switches between
//! Adwaita and Adwaita-dark.

use vstd::prelude::*;

use crate::config::Config as ThconConfig;
use crate::disableable::{AppConfig, Disableable};
use crate::operation::Operation;
use crate::plan::{wrap, Plan, PlanView, Setting, SettingView};
use crate::section::{peek, spec_peek, Section};
use crate::themeable::{ConfigError, ConfigState, Themeable};

verus! {

/// The `gtk` section.
#[derive(Debug)]
pub struct _Config {
    /// The GTK theme to use in light mode.
    pub light: String,
    /// The GTK theme to use in dark mode.
    pub dark: String,
    /// Whether GTK is left alone.
    pub disabled: bool,
}

impl _Config {
    /// The theme that the operation selects.
    pub open spec fn theme(&self, operation: Operation) -> Seq<char> {
        match operation {
            Operation::Darken => self.dark@,
            Operation::Lighten => self.light@,
        }
    }
}

impl Default for _Config {
    fn default() -> (settings: Self)
        ensures
            settings.light@ == "Adwaita"@,
            settings.dark@ == "Adwaita-dark"@,
            !settings.disabled,
    {
        _Config {
            light: String::from_str("Adwaita"),
            dark: String::from_str("Adwaita-dark"),
            disabled: false,
        }
    }
}

impl Disableable for _Config {
    open spec fn is_disabled(&self) -> bool {
        self.disabled
    }

    fn disabled(&self) -> (b: bool) {
        self.disabled
    }
}

impl AppConfig for _Config {

}

/// What the configuration file holds for GTK.
pub type Config = Section<_Config>;

/// The GTK toolkit's theme.
#[derive(Debug)]
pub struct Gtk {}

impl Gtk {
    /// The theme that applies without a section.
    pub open spec fn default_theme(operation: Operation) -> Seq<char> {
        match operation {
            Operation::Darken => "Adwaita-dark"@,
            Operation::Lighten => "Adwaita"@,
        }
    }

    /// The setting that applies a GTK theme.
    pub open spec fn setting(theme: Seq<char>) -> SettingView {
        SettingView {
            schema: "org.gnome.desktop.interface"@,
            key: "gtk-theme"@,
            value: theme,
            failure: "Unable to apply GTK theme '"@ + theme + "'"@,
        }
    }
}

impl Themeable for Gtk {
    open spec fn state_of(&self, config: &ThconConfig) -> ConfigState {
        ConfigState::defaulted(spec_peek(&config.gtk))
    }

    open spec fn ready(&self, config: &ThconConfig, operation: Operation) -> bool {
        true
    }

    open spec fn plan_of(&self, config: &ThconConfig, operation: Operation) -> Result<
        PlanView,
        Seq<char>,
    > {
        match self.state_of(config) {
            ConfigState::Disabled => Ok(PlanView::Nothing),
            ConfigState::Enabled => Ok(
                PlanView::Store(Self::setting(config.gtk->0.settings().theme(operation))),
            ),
            _ => Ok(PlanView::Store(Self::setting(Self::default_theme(operation)))),
        }
    }

    fn config_state(&self, config: &ThconConfig) -> (state: ConfigState) {
        ConfigState::with_default_config(peek(&config.gtk))
    }

    fn can_switch(&self, config: &ThconConfig, operation: &Operation) -> (ready: bool) {
        true
    }

    fn switch(&self, config: &ThconConfig, operation: &Operation) -> (outcome: Result<
        Plan,
        ConfigError,
    >) {
        let default_config = _Config::default();
        let settings = match self.config_state(config) {
            ConfigState::NoDefault => unreached(),
            ConfigState::Disabled => return Ok(Plan::Nothing),
            ConfigState::Default => &default_config,
            ConfigState::Enabled => match &config.gtk {
                Some(section) => section.unwrap_inner_left(),
                None => unreached(),
            },
        };
        let theme = match operation {
            Operation::Darken => &settings.dark,
            Operation::Lighten => &settings.light,
        };
        Ok(
            Plan::Store(
                Setting {
                    schema: String::from_str("org.gnome.desktop.interface"),
                    key: String::from_str("gtk-theme"),
                    value: theme.clone(),
                    failure: wrap("Unable to apply GTK theme '", theme.as_str(), "'"),
                },
            ),
        )
    }
}

} // verus!
