//! Switches the colour theme of Visual Studio Code.
//!
//! Visual Studio Code watches its `settings.json` and applies changes at
//! once.  The file may hold comments, so it is not parsed: the line that
//! sets `workbench.colorTheme` is found by the comment
//! `// thcon:replace-line` at its end, and only the value in that line is
//! replaced.  Without a section of its own, the editor switches between
//! Default Light+ and Default Dark+.

use vstd::prelude::*;

use crate::config::Config as ThconConfig;
use crate::disableable::{AppConfig, Disableable};
use crate::operation::Operation;
use crate::pattern::{
    compile, compiles, lemma_unmatched_lines_stay, matches_none, replace_lines, replaced_lines,
};
use crate::plan::{Plan, PlanView};
use crate::section::{peek, spec_peek, Section};
use crate::text::{join, joined, lemma_lines_join_back, lines, lines_of, plain_endings};
use crate::themeable::{ConfigError, ConfigState, Themeable};

verus! {

/// The marked line: the key and what follows it up to the value's opening
/// quote is group 1, the value group 2, and what follows the closing
/// quote, up to the marker, group 3.
pub const THEME_LINE: &'static str =
    r#"^(?P<prefix>\s*"workbench.colorTheme"\s*:\s*)"(?P<v>.+)"(?P<suffix>,?\s*//\s*thcon:replace-line)"#;

/// The `vscode` section.
#[derive(Debug)]
pub struct _Config {
    /// The theme to use in light mode.
    pub light: String,
    /// The theme to use in dark mode.
    pub dark: String,
    /// Where `settings.json` is kept.
    pub config: Option<String>,
    /// Whether Visual Studio Code is left alone.
    pub disabled: bool,
}

impl _Config {
    /// The theme that the operation selects.
    pub open spec fn theme(&self, operation: Operation) -> Seq<char> {
        match operation {
            Operation::Darken => self.dark@,
            Operation::Lighten => self.light@,
        }
    }
}

impl Default for _Config {
    fn default() -> (settings: Self)
        ensures
            settings.light@ == "Default Light+"@,
            settings.dark@ == "Default Dark+"@,
            settings.config is None,
            !settings.disabled,
    {
        _Config {
            light: String::from_str("Default Light+"),
            dark: String::from_str("Default Dark+"),
            config: None,
            disabled: false,
        }
    }
}

impl Disableable for _Config {
    open spec fn is_disabled(&self) -> bool {
        self.disabled
    }

    fn disabled(&self) -> (b: bool) {
        self.disabled
    }
}

impl AppConfig for _Config {

}

/// What the configuration file holds for Visual Studio Code.
pub type Config = Section<_Config>;

/// The Visual Studio Code editor.
#[derive(Debug)]
pub struct VSCode;

impl VSCode {
    /// The theme that applies without a section.
    pub open spec fn default_theme(operation: Operation) -> Seq<char> {
        match operation {
            Operation::Darken => "Default Dark+"@,
            Operation::Lighten => "Default Light+"@,
        }
    }

    /// The parts of the path of `settings.json` below the user's
    /// configuration directory.
    pub fn settings_json_path(&self, config_dir: &str) -> (path: Vec<String>)
        ensures
            path.deep_view() == seq![config_dir@, "Code"@, "User"@, "settings.json"@],
    {
        let mut path: Vec<String> = Vec::new();
        path.push(String::from_str(config_dir));
        path.push(String::from_str("Code"));
        path.push(String::from_str("User"));
        path.push(String::from_str("settings.json"));
        proof {
            assert(path.deep_view() =~= seq![config_dir@, "Code"@, "User"@, "settings.json"@]);
        }
        path
    }
}

impl Themeable for VSCode {
    open spec fn state_of(&self, config: &ThconConfig) -> ConfigState {
        ConfigState::defaulted(spec_peek(&config.vscode))
    }

    open spec fn ready(&self, config: &ThconConfig, operation: Operation) -> bool {
        true
    }

    open spec fn plan_of(&self, config: &ThconConfig, operation: Operation) -> Result<
        PlanView,
        Seq<char>,
    > {
        match self.state_of(config) {
            ConfigState::Disabled => Ok(PlanView::Nothing),
            ConfigState::Enabled => Ok(
                PlanView::VSCode { theme: config.vscode->0.settings().theme(operation) },
            ),
            _ => Ok(PlanView::VSCode { theme: Self::default_theme(operation) }),
        }
    }

    fn config_state(&self, config: &ThconConfig) -> (state: ConfigState) {
        ConfigState::with_default_config(peek(&config.vscode))
    }

    fn can_switch(&self, config: &ThconConfig, operation: &Operation) -> (ready: bool) {
        true
    }

    fn switch(&self, config: &ThconConfig, operation: &Operation) -> (outcome: Result<
        Plan,
        ConfigError,
    >) {
        let default_config = _Config::default();
        let settings = match self.config_state(config) {
            ConfigState::NoDefault => unreached(),
            ConfigState::Disabled => return Ok(Plan::Nothing),
            ConfigState::Default => &default_config,
            ConfigState::Enabled => match &config.vscode {
                Some(section) => section.unwrap_inner_left(),
                None => unreached(),
            },
        };
        let theme = match operation {
            Operation::Darken => &settings.dark,
            Operation::Lighten => &settings.light,
        };
        Ok(Plan::VSCode { theme: theme.clone() })
    }
}

/// The settings with the new theme in every marked line.  The lines come
/// out joined by single line feeds, without one after the last.  Should
/// the pattern not compile, the settings stay as they are.
pub open spec fn with_color_theme(settings_json: Seq<char>, new_theme: Seq<char>) -> Seq<char> {
    if compiles(THEME_LINE@) {
        joined(
            replaced_lines(
                THEME_LINE@,
                lines_of(settings_json),
                1,
                3,
                "\""@,
                new_theme,
                "\""@,
            ),
            "\n"@,
        )
    } else {
        settings_json
    }
}

/// Settings without a marked line stay as they are, provided that their
/// line endings are plain.
pub proof fn lemma_unmarked_settings_stay(settings_json: Seq<char>, new_theme: Seq<char>)
    requires
        plain_endings(settings_json),
        matches_none(THEME_LINE@, lines_of(settings_json)),
    ensures
        with_color_theme(settings_json, new_theme) == settings_json,
{
    lemma_unmatched_lines_stay(
        THEME_LINE@,
        lines_of(settings_json),
        1,
        3,
        "\""@,
        new_theme,
        "\""@,
    );
    lemma_lines_join_back(settings_json);
}

/// Puts `new_theme`, in double quotes, in place of the value in every
/// marked line of `settings_json`.
pub fn replace_color_theme(settings_json: &str, new_theme: &str) -> (changed: String)
    ensures
        changed@ == with_color_theme(settings_json@, new_theme@),
{
    match compile(THEME_LINE) {
        Err(_) => String::from_str(settings_json),
        Ok(theme_regex) => {
            let modified_lines = replace_lines(
                &theme_regex,
                &lines(settings_json),
                1,
                3,
                "\"",
                new_theme,
                "\"",
            );
            join(&modified_lines, "\n")
        },
    }
}

} // verus!
