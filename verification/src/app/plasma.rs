//! Switches the global theme of KDE Plasma.
//!
//! The theme is applied with `lookandfeeltool --apply`.  Without a section
//! of its own, Plasma switches between Breeze and Breeze Dark.

use vstd::prelude::*;

use crate::config::Config as ThconConfig;
use crate::disableable::{AppConfig, Disableable};
use crate::operation::Operation;
use crate::plan::{pair, wrap, Command, CommandView, Plan, PlanView};
use crate::section::{peek, spec_peek, Section};
use crate::themeable::{ConfigError, ConfigState, Themeable};

verus! {

/// The `plasma` section.
#[derive(Debug)]
pub struct _Config {
    /// The look-and-feel package to use in light mode.
    pub light: String,
    /// The look-and-feel package to use in dark mode.
    pub dark: String,
    /// Whether Plasma is left alone.
    pub disabled: bool,
}

impl _Config {
    /// The package that the operation selects.
    pub open spec fn theme(&self, operation: Operation) -> Seq<char> {
        match operation {
            Operation::Lighten => self.light@,
            Operation::Darken => self.dark@,
        }
    }
}

impl Default for _Config {
    fn default() -> (settings: Self)
        ensures
            settings.light@ == "org.kde.breeze.desktop"@,
            settings.dark@ == "org.kde.breezedark.desktop"@,
            !settings.disabled,
    {
        _Config {
            light: String::from_str("org.kde.breeze.desktop"),
            dark: String::from_str("org.kde.breezedark.desktop"),
            disabled: false,
        }
    }
}

impl Disableable for _Config {
    open spec fn is_disabled(&self) -> bool {
        self.disabled
    }

    fn disabled(&self) -> (b: bool) {
        self.disabled
    }
}

impl AppConfig for _Config {

}

/// What the configuration file holds for Plasma.
pub type Config = Section<_Config>;

/// The KDE Plasma desktop.
#[derive(Debug)]
pub struct Plasma;

impl Plasma {
    /// The package that applies without a section.
    pub open spec fn default_theme(operation: Operation) -> Seq<char> {
        match operation {
            Operation::Lighten => "org.kde.breeze.desktop"@,
            Operation::Darken => "org.kde.breezedark.desktop"@,
        }
    }

    /// The command that applies a package.
    pub open spec fn command(theme: Seq<char>) -> CommandView {
        CommandView {
            program: "lookandfeeltool"@,
            args: seq!["--apply"@, theme],
            silence_stderr: true,
            must_succeed: true,
            failure: "Failed to execute 'lookandfeeltool --apply "@ + theme + "'"@,
        }
    }

    fn apply(theme: &str) -> (command: Command)
        ensures
            command@ == Self::command(theme@),
    {
        Command {
            program: String::from_str("lookandfeeltool"),
            args: pair("--apply", theme),
            silence_stderr: true,
            must_succeed: true,
            failure: wrap("Failed to execute 'lookandfeeltool --apply ", theme, "'"),
        }
    }
}

impl Themeable for Plasma {
    open spec fn state_of(&self, config: &ThconConfig) -> ConfigState {
        ConfigState::defaulted(spec_peek(&config.plasma))
    }

    open spec fn ready(&self, config: &ThconConfig, operation: Operation) -> bool {
        true
    }

    open spec fn plan_of(&self, config: &ThconConfig, operation: Operation) -> Result<
        PlanView,
        Seq<char>,
    > {
        match self.state_of(config) {
            ConfigState::Disabled => Ok(PlanView::Nothing),
            ConfigState::Enabled => Ok(
                PlanView::Run(Self::command(config.plasma->0.settings().theme(operation))),
            ),
            _ => Ok(PlanView::Run(Self::command(Self::default_theme(operation)))),
        }
    }

    fn config_state(&self, config: &ThconConfig) -> (state: ConfigState) {
        ConfigState::with_default_config(peek(&config.plasma))
    }

    fn can_switch(&self, config: &ThconConfig, operation: &Operation) -> (ready: bool) {
        true
    }

    fn switch(&self, config: &ThconConfig, operation: &Operation) -> (outcome: Result<
        Plan,
        ConfigError,
    >) {
        let default_config = _Config::default();
        let settings = match self.config_state(config) {
            ConfigState::NoDefault => unreached(),
            ConfigState::Disabled => return Ok(Plan::Nothing),
            ConfigState::Default => &default_config,
            ConfigState::Enabled => match &config.plasma {
                Some(section) => section.unwrap_inner_left(),
                None => unreached(),
            },
        };
        let theme = match operation {
            Operation::Lighten => &settings.light,
            Operation::Darken => &settings.dark,
        };
        Ok(Plan::Run(Self::apply(theme.as_str())))
    }
}

} // verus!
