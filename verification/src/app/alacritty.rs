//! Switches the colour scheme of alacritty.
//!
//! alacritty is configured in YAML, so colour schemes are best kept as
//! anchors and chosen by an alias:
//!
//! ```yaml
//! solarized: &solarized_dark
//!   primary:
//!     background: '0x002b36'
//!
//! colors: *solarized_light # thcon:replace-line
//! ```
//!
//! The line that ends in `# thcon:replace-line` is the one that is
//! rewritten; the section names the anchors for light and dark mode.

use vstd::prelude::*;

use crate::config::Config as ThconConfig;
use crate::disableable::{AppConfig, Disableable};
use crate::operation::Operation;
use crate::pattern::{
    compile, compiles, lemma_unmatched_lines_stay, matches_none, replace_lines, replaced_lines,
    PatternError,
};
use crate::plan::{Plan, PlanView};
use crate::section::{peek, spec_peek, Section};
use crate::text::{join, joined, lemma_lines_join_back, lines, lines_of, plain_endings};
use crate::themeable::{ConfigError, ConfigState, Themeable};

verus! {

/// The marked line: the `colors` key up to its value is group 1, the
/// value group 2, and what follows it, up to the marker, group 3.
pub const COLORS_LINE: &'static str =
    r#"^(?P<prefix>"?colors"?\s*:\s*"?)(?P<v>[^\s]+)(?P<suffix>"?,?\s*#\s*thcon:replace-line)"#;

/// What is reported when no settings file is found.
pub const NOT_FOUND: &'static str = "Couldn't find alacritty.yml";

/// What is added to it when the section names no file either.
pub const NOT_FOUND_ADVICE: &'static str =
    "; consider adding `config` property to `[alacritty]` section of `thcon.toml`";

/// The `alacritty` section.
#[derive(Debug)]
pub struct _Config {
    /// The anchor to use in light mode.
    pub light: String,
    /// The anchor to use in dark mode.
    pub dark: String,
    /// Where `alacritty.yml` is kept.
    pub config: Option<String>,
    /// Whether alacritty is left alone.
    pub disabled: bool,
}

impl _Config {
    /// The anchor that the operation selects.
    pub open spec fn theme(&self, operation: Operation) -> Seq<char> {
        match operation {
            Operation::Darken => self.dark@,
            Operation::Lighten => self.light@,
        }
    }

    /// What to report when no settings file is found.
    pub open spec fn not_found(&self) -> Seq<char> {
        match self.config {
            Some(_) => NOT_FOUND@,
            None => NOT_FOUND@ + NOT_FOUND_ADVICE@,
        }
    }
}

impl Disableable for _Config {
    open spec fn is_disabled(&self) -> bool {
        self.disabled
    }

    fn disabled(&self) -> (b: bool) {
        self.disabled
    }
}

impl AppConfig for _Config {

}

/// What the configuration file holds for alacritty.
pub type Config = Section<_Config>;

/// The alacritty terminal.
#[derive(Debug)]
pub struct Alacritty {}

impl Themeable for Alacritty {
    open spec fn state_of(&self, config: &ThconConfig) -> ConfigState {
        ConfigState::manual(spec_peek(&config.alacritty))
    }

    open spec fn ready(&self, config: &ThconConfig, operation: Operation) -> bool {
        self.state_of(config) != ConfigState::Default
    }

    open spec fn plan_of(&self, config: &ThconConfig, operation: Operation) -> Result<
        PlanView,
        Seq<char>,
    > {
        match self.state_of(config) {
            ConfigState::NoDefault => Err(
                ConfigError::RequiresManualConfig("alacritty").spec_message(),
            ),
            ConfigState::Disabled => Ok(PlanView::Nothing),
            _ => Ok(
                PlanView::Alacritty {
                    theme: config.alacritty->0.settings().theme(operation),
                    not_found: config.alacritty->0.settings().not_found(),
                },
            ),
        }
    }

    fn config_state(&self, config: &ThconConfig) -> (state: ConfigState) {
        ConfigState::with_manual_config(peek(&config.alacritty))
    }

    fn can_switch(&self, config: &ThconConfig, operation: &Operation) -> (ready: bool) {
        match self.config_state(config) {
            ConfigState::Default => false,
            _ => true,
        }
    }

    fn switch(&self, config: &ThconConfig, operation: &Operation) -> (outcome: Result<
        Plan,
        ConfigError,
    >) {
        let settings = match self.config_state(config) {
            ConfigState::NoDefault => {
                return Err(ConfigError::RequiresManualConfig("alacritty"))
            },
            ConfigState::Default => unreached(),
            ConfigState::Disabled => return Ok(Plan::Nothing),
            ConfigState::Enabled => match &config.alacritty {
                Some(section) => section.unwrap_inner_left(),
                None => unreached(),
            },
        };
        let theme = match operation {
            Operation::Darken => &settings.dark,
            Operation::Lighten => &settings.light,
        };
        let mut message = String::from_str(NOT_FOUND);
        match &settings.config {
            Some(_path) => {},
            None => message.append(NOT_FOUND_ADVICE),
        }
        Ok(Plan::Alacritty { theme: theme.clone(), not_found: message })
    }
}

/// The settings with an alias of the new anchor in every marked line.  The
/// lines come out joined by single line feeds, without one after the
/// last.
pub open spec fn with_colors(settings: Seq<char>, theme: Seq<char>) -> Seq<char> {
    joined(
        replaced_lines(COLORS_LINE@, lines_of(settings), 1, 3, "*"@, theme, ""@),
        "\n"@,
    )
}

/// Settings without a marked line stay as they are, provided that their
/// line endings are plain.
pub proof fn lemma_unmarked_settings_stay(settings: Seq<char>, theme: Seq<char>)
    requires
        plain_endings(settings),
        matches_none(COLORS_LINE@, lines_of(settings)),
    ensures
        with_colors(settings, theme) == settings,
{
    lemma_unmatched_lines_stay(COLORS_LINE@, lines_of(settings), 1, 3, "*"@, theme, ""@);
    lemma_lines_join_back(settings);
}

/// Puts an alias of `theme` in place of the value in every marked line of
/// `settings`.  Fails exactly when the pattern does not compile.
pub fn replace_colors(settings: &str, theme: &str) -> (changed: Result<String, PatternError>)
    ensures
        changed is Ok <==> compiles(COLORS_LINE@),
        changed matches Ok(text) ==> text@ == with_colors(settings@, theme@),
{
    match compile(COLORS_LINE) {
        Err(cause) => Err(PatternError { cause }),
        Ok(theme_regex) => {
            let modified_lines = replace_lines(
                &theme_regex,
                &lines(settings),
                1,
                3,
                "*",
                theme,
                "",
            );
            Ok(join(&modified_lines, "\n"))
        },
    }
}

/// The first of the places where alacritty looks for its settings that
/// holds a file.  Each argument is the file found at one place, if any, in
/// the order in which alacritty looks: `alacritty/alacritty.yml` and
/// `alacritty.yml` below the XDG configuration directories, then
/// `.config/alacritty/alacritty.yml` and `.alacritty.yml` below the home
/// directory.
pub fn alacritty_config(
    xdg_prefixed: Option<String>,
    xdg_plain: Option<String>,
    home_config: Option<String>,
    home_plain: Option<String>,
) -> (found: Option<String>)
    ensures
        found == (if xdg_prefixed is Some {
            xdg_prefixed
        } else if xdg_plain is Some {
            xdg_plain
        } else if home_config is Some {
            home_config
        } else {
            home_plain
        }),
{
    if xdg_prefixed.is_some() {
        xdg_prefixed
    } else if xdg_plain.is_some() {
        xdg_plain
    } else if home_config.is_some() {
        home_config
    } else {
        home_plain
    }
}

/// The two places below the home directory, as path parts: first
/// `.config/alacritty/alacritty.yml`, then `.alacritty.yml`.
pub fn home_fallbacks(home: &str) -> (places: (Vec<String>, Vec<String>))
    ensures
        places.0.deep_view() == seq![home@, ".config/alacritty/alacritty.yml"@],
        places.1.deep_view() == seq![home@, ".alacritty.yml"@],
{
    (
        crate::plan::pair(home, ".config/alacritty/alacritty.yml"),
        crate::plan::pair(home, ".alacritty.yml"),
    )
}

} // verus!
