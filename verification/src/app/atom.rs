//! Switches the UI and syntax themes of Atom.
//!
//! Every running Atom listens on a socket of its own; the list of themes
//! is sent to each.  Without a section of its own, Atom switches between
//! One Dark and One Light.

use vstd::prelude::*;

use crate::config::Config as ThconConfig;
use crate::disableable::{AppConfig, Disableable};
use crate::operation::Operation;
use crate::plan::{clone_texts, pair, Plan, PlanView};
use crate::section::{peek, spec_peek, Section};
use crate::themeable::{ConfigError, ConfigState, Themeable};

verus! {

/// The `atom` section.
#[derive(Debug)]
pub struct _Config {
    /// The themes to use in dark mode.
    pub dark: Vec<String>,
    /// The themes to use in light mode.
    pub light: Vec<String>,
    /// Whether Atom is left alone.
    pub disabled: bool,
}

impl _Config {
    /// The themes that the operation selects.
    pub open spec fn themes(&self, operation: Operation) -> Seq<Seq<char>> {
        match operation {
            Operation::Darken => self.dark.deep_view(),
            Operation::Lighten => self.light.deep_view(),
        }
    }
}

impl Default for _Config {
    fn default() -> (settings: Self)
        ensures
            settings.dark.deep_view() == seq!["one-dark-ui"@, "one-dark-syntax"@],
            settings.light.deep_view() == seq!["one-light-ui"@, "one-light-syntax"@],
            !settings.disabled,
    {
        _Config {
            dark: pair("one-dark-ui", "one-dark-syntax"),
            light: pair("one-light-ui", "one-light-syntax"),
            disabled: false,
        }
    }
}

impl Disableable for _Config {
    open spec fn is_disabled(&self) -> bool {
        self.disabled
    }

    fn disabled(&self) -> (b: bool) {
        self.disabled
    }
}

impl AppConfig for _Config {

}

/// What the configuration file holds for Atom.
pub type Config = Section<_Config>;

/// The message that Atom reads: the value for its `core.themes` key.
#[derive(Debug, Clone, PartialEq, Eq)]
pub struct WireConfig {
    /// The themes to change to.
    pub themes: Vec<String>,
}

impl View for WireConfig {
    type V = Seq<Seq<char>>;

    open spec fn view(&self) -> Seq<Seq<char>> {
        self.themes.deep_view()
    }
}

/// The Atom editor.
#[derive(Debug)]
pub struct Atom {}

impl Atom {
    /// The themes that apply without a section.
    pub open spec fn default_themes(operation: Operation) -> Seq<Seq<char>> {
        match operation {
            Operation::Darken => seq!["one-dark-ui"@, "one-dark-syntax"@],
            Operation::Lighten => seq!["one-light-ui"@, "one-light-syntax"@],
        }
    }

    /// The message for a plan of this application: the plan's themes.
    pub fn wire_config(themes: &Vec<String>) -> (message: WireConfig)
        ensures
            message@ == themes.deep_view(),
    {
        WireConfig { themes: clone_texts(themes) }
    }
}

impl Themeable for Atom {
    open spec fn state_of(&self, config: &ThconConfig) -> ConfigState {
        ConfigState::defaulted(spec_peek(&config.atom))
    }

    open spec fn ready(&self, config: &ThconConfig, operation: Operation) -> bool {
        true
    }

    open spec fn plan_of(&self, config: &ThconConfig, operation: Operation) -> Result<
        PlanView,
        Seq<char>,
    > {
        match self.state_of(config) {
            ConfigState::Disabled => Ok(PlanView::Nothing),
            ConfigState::Enabled => Ok(
                PlanView::Atom { themes: config.atom->0.settings().themes(operation) },
            ),
            _ => Ok(PlanView::Atom { themes: Self::default_themes(operation) }),
        }
    }

    fn config_state(&self, config: &ThconConfig) -> (state: ConfigState) {
        ConfigState::with_default_config(peek(&config.atom))
    }

    fn can_switch(&self, config: &ThconConfig, operation: &Operation) -> (ready: bool) {
        true
    }

    fn switch(&self, config: &ThconConfig, operation: &Operation) -> (outcome: Result<
        Plan,
        ConfigError,
    >) {
        let default_config = _Config::default();
        let settings = match self.config_state(config) {
            ConfigState::NoDefault => unreached(),
            ConfigState::Disabled => return Ok(Plan::Nothing),
            ConfigState::Default => &default_config,
            ConfigState::Enabled => match &config.atom {
                Some(section) => section.unwrap_inner_left(),
                None => unreached(),
            },
        };
        let themes = match operation {
            Operation::Darken => &settings.dark,
            Operation::Lighten => &settings.light,
        };
        Ok(Plan::Atom { themes: clone_texts(themes) })
    }
}

} // verus!
