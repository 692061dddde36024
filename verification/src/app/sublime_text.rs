//! Switches the colour scheme and the theme of Sublime Text.
//!
//! Sublime Text watches its `Preferences.sublime-settings` and applies
//! changes at once.  The file is JSON; a switch sets its `color_scheme` and
//! `theme` keys and writes it back with an indent of four spaces, as
//! Sublime Text itself does.  Without a section of its own, the editor
//! switches between Celeste with the Adaptive theme and Monokai with the
//! Default theme.

use vstd::prelude::*;

use crate::config::Config as ThconConfig;
use crate::dirs::str_view;
use crate::disableable::{AppConfig, Disableable};
use crate::json::{
    is_null, is_object, json_or_null, json_parse, json_pretty, json_with, or_null, parse, store,
    takes_keys, to_pretty,
};
use crate::operation::Operation;
use crate::plan::{clone_text, text_view, Plan, PlanView};
use crate::platform::Platform;
use crate::section::{peek, spec_peek, Section};
use crate::themeable::{ConfigError, ConfigState, Themeable};

verus! {

/// The indent of the preferences file.
pub const INDENT: &'static str = "    ";

/// The `sublime-text` section.
#[derive(Debug)]
pub struct _Config {
    /// The settings for light mode.
    pub light: ConfigSection,
    /// The settings for dark mode.
    pub dark: ConfigSection,
    /// Where `Preferences.sublime-settings` is kept.
    pub preferences_file: Option<String>,
    /// Whether Sublime Text is left alone.
    pub disabled: bool,
}

/// The settings for one mode.
#[derive(Debug)]
pub struct ConfigSection {
    /// The colour scheme of the text.
    pub color_scheme: Option<String>,
    /// The theme of the editor's own surface.
    pub theme: Option<String>,
}

impl _Config {
    /// The settings that the operation selects.
    pub open spec fn section(&self, operation: Operation) -> ConfigSection {
        match operation {
            Operation::Darken => self.dark,
            Operation::Lighten => self.light,
        }
    }
}

impl Default for _Config {
    fn default() -> (settings: Self)
        ensures
            settings.light.color_scheme matches Some(scheme) && scheme@
                == "Packages/Color Scheme - Default/Celeste.sublime-color-scheme"@,
            settings.light.theme matches Some(theme) && theme@ == "Adaptive.sublime-theme"@,
            settings.dark.color_scheme matches Some(scheme) && scheme@
                == "Packages/Color Scheme - Default/Monokai.sublime-color-scheme"@,
            settings.dark.theme matches Some(theme) && theme@ == "Default.sublime-theme"@,
            settings.preferences_file is None,
            !settings.disabled,
    {
        _Config {
            light: ConfigSection {
                color_scheme: Some(
                    String::from_str("Packages/Color Scheme - Default/Celeste.sublime-color-scheme"),
                ),
                theme: Some(String::from_str("Adaptive.sublime-theme")),
            },
            dark: ConfigSection {
                color_scheme: Some(
                    String::from_str("Packages/Color Scheme - Default/Monokai.sublime-color-scheme"),
                ),
                theme: Some(String::from_str("Default.sublime-theme")),
            },
            preferences_file: None,
            disabled: false,
        }
    }
}

impl Disableable for _Config {
    open spec fn is_disabled(&self) -> bool {
        self.disabled
    }

    fn disabled(&self) -> (b: bool) {
        self.disabled
    }
}

impl AppConfig for _Config {

}

/// What the configuration file holds for Sublime Text.
pub type Config = Section<_Config>;

/// The name of Sublime Text's directory below the user's configuration
/// directory.
pub open spec fn product_dir(platform: Platform) -> Seq<char> {
    match platform {
        Platform::Mac => "Sublime Text 3"@,
        _ => "sublime-text-3"@,
    }
}

/// The parts of the usual path of the preferences file, below the user's
/// configuration directory.
pub fn preferences_path(config_dir: &str, platform: Platform) -> (path: Vec<String>)
    ensures
        path.deep_view() == seq![
            config_dir@,
            product_dir(platform),
            "Packages"@,
            "User"@,
            "Preferences.sublime-settings"@,
        ],
{
    let mut path: Vec<String> = Vec::new();
    path.push(String::from_str(config_dir));
    path.push(
        String::from_str(
            match platform {
                Platform::Mac => "Sublime Text 3",
                _ => "sublime-text-3",
            },
        ),
    );
    path.push(String::from_str("Packages"));
    path.push(String::from_str("User"));
    path.push(String::from_str("Preferences.sublime-settings"));
    proof {
        assert(path.deep_view() =~= seq![
            config_dir@,
            product_dir(platform),
            "Packages"@,
            "User"@,
            "Preferences.sublime-settings"@,
        ]);
    }
    path
}

/// A value with a string stored under a key, where there is a string to
/// store; `None` where the value is neither an object nor null, so that
/// nothing can be stored in it.
pub open spec fn with_key(
    value: serde_json::Value,
    key: Seq<char>,
    text: Option<Seq<char>>,
) -> Option<serde_json::Value> {
    match text {
        None => Some(value),
        Some(text) => if takes_keys(value) {
            Some(json_with(value, key, text))
        } else {
            None
        },
    }
}

/// The preferences with the two keys set, as the bytes of the new file.
/// Preferences that are not JSON count as empty.  `None` where a key
/// cannot be stored, or the result cannot be printed.
pub open spec fn updated(
    preferences: Seq<char>,
    color_scheme: Option<Seq<char>>,
    theme: Option<Seq<char>>,
) -> Option<Seq<u8>> {
    match with_key(json_or_null(json_parse(preferences)), "color_scheme"@, color_scheme) {
        None => None,
        Some(colored) => match with_key(colored, "theme"@, theme) {
            None => None,
            Some(themed) => json_pretty(themed, INDENT@),
        },
    }
}

/// The model of optional bytes.
pub open spec fn bytes_view(bytes: Option<Vec<u8>>) -> Option<Seq<u8>> {
    match bytes {
        Some(bytes) => Some(bytes@),
        None => None,
    }
}

/// Stores a string under a key of a value, where there is a string to
/// store.  Says `false`, and leaves the value alone, where nothing can be
/// stored in it.
pub fn set_key(value: &mut serde_json::Value, key: &str, text: Option<&str>) -> (stored: bool)
    ensures
        stored <==> with_key(*old(value), key@, str_view(text)) is Some,
        stored ==> Some(*final(value)) == with_key(*old(value), key@, str_view(text)),
        !stored ==> *final(value) == *old(value),
{
    match text {
        None => true,
        Some(text) => {
            if is_null(value) || is_object(value) {
                store(value, key, text);
                true
            } else {
                false
            }
        },
    }
}

/// Sets the `color_scheme` and the `theme` key of the preferences and
/// prints them anew.
pub fn update_preferences(preferences: &str, color_scheme: Option<&str>, theme: Option<&str>) -> (
    printed: Option<Vec<u8>>
)
    ensures
        bytes_view(printed) == updated(preferences@, str_view(color_scheme), str_view(theme)),
{
    let mut settings = or_null(parse(preferences));
    if !set_key(&mut settings, "color_scheme", color_scheme) {
        return None;
    }
    if !set_key(&mut settings, "theme", theme) {
        return None;
    }
    match to_pretty(&settings, INDENT) {
        Ok(printed) => Some(printed),
        Err(_) => None,
    }
}

/// The Sublime Text editor.
#[derive(Debug)]
pub struct SublimeText;

impl SublimeText {
    /// What applies without a section.
    pub open spec fn default_plan(operation: Operation) -> PlanView {
        match operation {
            Operation::Darken => PlanView::SublimeText {
                color_scheme: Some(
                    "Packages/Color Scheme - Default/Monokai.sublime-color-scheme"@,
                ),
                theme: Some("Default.sublime-theme"@),
                preferences: None,
            },
            Operation::Lighten => PlanView::SublimeText {
                color_scheme: Some(
                    "Packages/Color Scheme - Default/Celeste.sublime-color-scheme"@,
                ),
                theme: Some("Adaptive.sublime-theme"@),
                preferences: None,
            },
        }
    }

    /// What applies with a section.
    pub open spec fn plan_for(settings: _Config, operation: Operation) -> PlanView {
        PlanView::SublimeText {
            color_scheme: text_view(settings.section(operation).color_scheme),
            theme: text_view(settings.section(operation).theme),
            preferences: text_view(settings.preferences_file),
        }
    }
}

impl Themeable for SublimeText {
    open spec fn state_of(&self, config: &ThconConfig) -> ConfigState {
        ConfigState::defaulted(spec_peek(&config.sublime_text))
    }

    open spec fn ready(&self, config: &ThconConfig, operation: Operation) -> bool {
        true
    }

    open spec fn plan_of(&self, config: &ThconConfig, operation: Operation) -> Result<
        PlanView,
        Seq<char>,
    > {
        match self.state_of(config) {
            ConfigState::Disabled => Ok(PlanView::Nothing),
            ConfigState::Enabled => Ok(
                Self::plan_for(config.sublime_text->0.settings(), operation),
            ),
            _ => Ok(Self::default_plan(operation)),
        }
    }

    fn config_state(&self, config: &ThconConfig) -> (state: ConfigState) {
        ConfigState::with_default_config(peek(&config.sublime_text))
    }

    fn can_switch(&self, config: &ThconConfig, operation: &Operation) -> (ready: bool) {
        true
    }

    fn switch(&self, config: &ThconConfig, operation: &Operation) -> (outcome: Result<
        Plan,
        ConfigError,
    >) {
        let default_config = _Config::default();
        let settings = match self.config_state(config) {
            ConfigState::NoDefault => unreached(),
            ConfigState::Disabled => return Ok(Plan::Nothing),
            ConfigState::Default => &default_config,
            ConfigState::Enabled => match &config.sublime_text {
                Some(section) => section.unwrap_inner_left(),
                None => unreached(),
            },
        };
        let section = match operation {
            Operation::Darken => &settings.dark,
            Operation::Lighten => &settings.light,
        };
        Ok(
            Plan::SublimeText {
                color_scheme: clone_text(&section.color_scheme),
                theme: clone_text(&section.theme),
                preferences: clone_text(&settings.preferences_file),
            },
        )
    }
}

} // verus!
