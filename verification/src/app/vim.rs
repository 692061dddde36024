//! Switches the colour scheme, and any other setting, of vim and Neovim.
//!
//! Each running editor listens on a socket of its own.  A switch writes
//! the settings for the new mode to an rc file in vim's own language and
//! sends the file's name to every editor, which then sources it.
//!
//! A section holds, for each mode, an optional `colorscheme` and three
//! optional tables: `set` and `setglobal` for options, `let` for
//! variables.  There are no built-in settings to fall back on.

use serde_json::Value;
use vstd::prelude::*;

use crate::config::Config as ThconConfig;
use crate::disableable::{AppConfig, Disableable};
use crate::json::{as_flag, as_text, entries, json_entries, json_kind, json_text, to_text, JsonKind};
use crate::operation::Operation;
use crate::plan::{glue, text_view, wrap, Plan, PlanView};
use crate::section::{peek, spec_peek, Section};
use crate::text::{join, joined};
use crate::themeable::{ConfigError, ConfigState, Themeable};

verus! {

/// The command that a line of the rc file begins with.
#[derive(Debug, Clone, Copy, PartialEq, Eq, Structural)]
pub enum Verb {
    /// `set`: an option, here and as the default.
    Setting,
    /// `setglobal`: an option's default.
    GlobalSetting,
    /// `let`: a variable.
    Variable,
}

impl Verb {
    /// The command as it is written.
    pub open spec fn spec_word(self) -> Seq<char> {
        match self {
            Verb::Setting => "set"@,
            Verb::GlobalSetting => "setglobal"@,
            Verb::Variable => "let"@,
        }
    }

    /// Returns the command as it is written.
    pub fn word(&self) -> (word: &'static str)
        ensures
            word@ == self.spec_word(),
    {
        match self {
            Verb::Setting => "set",
            Verb::GlobalSetting => "setglobal",
            Verb::Variable => "let",
        }
    }
}

/// The line that gives `key` the value `value`, or `None` where the value
/// cannot be printed.
///
/// An option that is a flag is switched on by its name and off by `no`
/// and its name.  Any other option, and any variable, is assigned its
/// value: a string as it is (in double quotes for a variable, which vim
/// would else take for another variable's name), anything else as it
/// prints on one line.
pub open spec fn line_of(verb: Verb, key: Seq<char>, value: Value) -> Option<Seq<char>> {
    let assigned = verb.spec_word() + " "@ + key + "="@;
    match (verb, json_kind(value)) {
        (Verb::Variable, JsonKind::Text(text)) => Some(assigned + "\""@ + text + "\""@),
        (Verb::Variable, _) => match json_text(value) {
            Some(printed) => Some(assigned + printed),
            None => None,
        },
        (_, JsonKind::Flag(true)) => Some(verb.spec_word() + " "@ + key),
        (_, JsonKind::Flag(false)) => Some(verb.spec_word() + " no"@ + key),
        (_, JsonKind::Text(text)) => Some(assigned + text),
        (_, _) => match json_text(value) {
            Some(printed) => Some(assigned + printed),
            None => None,
        },
    }
}

/// The lines for all entries of a table, in the table's order; `None`
/// where one of the values cannot be printed.
pub open spec fn lines_of_entries(verb: Verb, table: Seq<(Seq<char>, Value)>) -> Option<
    Seq<Seq<char>>,
>
    decreases table.len(),
{
    if table.len() == 0 {
        Some(Seq::empty())
    } else {
        match (
            lines_of_entries(verb, table.drop_last()),
            line_of(verb, table.last().0, table.last().1),
        ) {
            (Some(before), Some(line)) => Some(before.push(line)),
            _ => None,
        }
    }
}

/// The entries of an optional table.
pub open spec fn table_view(table: Option<serde_json::Map<String, Value>>) -> Seq<
    (Seq<char>, Value),
> {
    match table {
        Some(table) => json_entries(table),
        None => Seq::empty(),
    }
}

/// The model of an optional list of lines.
pub open spec fn lines_view(lines: Option<Vec<String>>) -> Option<Seq<Seq<char>>> {
    match lines {
        Some(lines) => Some(lines.deep_view()),
        None => None,
    }
}

/// Puts one setting into words.
pub fn line(verb: Verb, key: &str, value: &Value) -> (text: Option<String>)
    ensures
        text_view(text) == line_of(verb, key@, *value),
{
    let mut assigned = wrap(verb.word(), " ", key);
    assigned.append("=");
    match verb {
        Verb::Variable => {},
        _ => {
            match as_flag(value) {
                Some(true) => {
                    return Some(wrap(verb.word(), " ", key));
                },
                Some(false) => {
                    return Some(wrap(verb.word(), " no", key));
                },
                None => {},
            }
        },
    }
    match as_text(value) {
        Some(text) => {
            match verb {
                Verb::Variable => {
                    assigned.append("\"");
                    assigned.append(text.as_str());
                    assigned.append("\"");
                },
                _ => {
                    assigned.append(text.as_str());
                },
            }
            Some(assigned)
        },
        None => match to_text(value) {
            Ok(printed) => {
                assigned.append(printed.as_str());
                Some(assigned)
            },
            Err(_) => None,
        },
    }
}

/// Puts a table's settings into words, one line for each.
pub fn lines_for(verb: Verb, table: &Option<serde_json::Map<String, Value>>) -> (lines: Option<
    Vec<String>,
>)
    ensures
        lines_view(lines) == lines_of_entries(verb, table_view(*table)),
{
    let mut lines: Vec<String> = Vec::new();
    match table {
        None => {},
        Some(object) => {
            let list = entries(object);
            let ghost all = json_entries(*object);
            let mut i: usize = 0;
            while i < list.len()
                invariant
                    i <= list.len(),
                    all == crate::json::entries_view(list@),
                    all == table_view(*table),
                    Some(lines.deep_view()) == lines_of_entries(verb, all.take(i as int)),
                decreases list.len() - i,
            {
                let ghost before = lines.deep_view();
                proof {
                    let upto = all.take(i + 1);
                    assert(upto.drop_last() =~= all.take(i as int));
                    assert(upto.last() == (list[i as int].0@, list[i as int].1));
                }
                match line(verb, list[i].0.as_str(), &list[i].1) {
                    Some(text) => {
                        lines.push(text);
                        proof {
                            assert(lines.deep_view() =~= before.push(text@));
                        }
                    },
                    None => {
                        proof {
                            let upto = all.take(i + 1);
                            assert(upto.drop_last() =~= all.take(i as int));
                            assert(lines_of_entries(verb, upto) is None);
                            lemma_unprintable_stays(verb, all, i + 1);
                        }
                        return None;
                    },
                }
                i = i + 1;
            }
            proof {
                assert(all.take(list.len() as int) =~= all);
            }
        },
    }
    Some(lines)
}

/// Once a value cannot be printed, no longer table can be put into words
/// either.
pub proof fn lemma_unprintable_stays(verb: Verb, table: Seq<(Seq<char>, Value)>, upto: int)
    requires
        0 <= upto <= table.len(),
        lines_of_entries(verb, table.take(upto)) is None,
    ensures
        lines_of_entries(verb, table) is None,
    decreases table.len() - upto,
{
    if upto < table.len() {
        assert(table.take(upto + 1).drop_last() =~= table.take(upto));
        lemma_unprintable_stays(verb, table, upto + 1);
    } else {
        assert(table.take(upto) =~= table);
    }
}

/// The settings for one mode.
#[derive(Debug)]
pub struct ConfigSection {
    /// The colour scheme to change to.
    pub colorscheme: Option<String>,
    /// Variables to assign with `let`.
    pub let_: Option<serde_json::Map<String, Value>>,
    /// Options to change with `set`.
    pub set: Option<serde_json::Map<String, Value>>,
    /// Options to change with `setglobal`.
    pub setglobal: Option<serde_json::Map<String, Value>>,
}

impl Default for ConfigSection {
    fn default() -> (section: Self)
        ensures
            section.colorscheme is None,
            section.let_ is None,
            section.set is None,
            section.setglobal is None,
    {
        ConfigSection { colorscheme: None, let_: None, set: None, setglobal: None }
    }
}

impl ConfigSection {
    /// The line that changes the colour scheme, if the section names one.
    pub open spec fn scheme_lines(&self) -> Seq<Seq<char>> {
        match self.colorscheme {
            Some(colorscheme) => seq!["colorscheme "@ + colorscheme@],
            None => Seq::empty(),
        }
    }

    /// The lines of the rc file: options, then default options, then
    /// variables, then the colour scheme, which comes last so that what it
    /// triggers finds every setting in place.  `None` where a value cannot
    /// be printed.
    pub open spec fn spec_lines(&self) -> Option<Seq<Seq<char>>> {
        match (
            lines_of_entries(Verb::Setting, table_view(self.set)),
            lines_of_entries(Verb::GlobalSetting, table_view(self.setglobal)),
            lines_of_entries(Verb::Variable, table_view(self.let_)),
        ) {
            (Some(sets), Some(global_sets), Some(lets)) => Some(
                sets + global_sets + lets + self.scheme_lines(),
            ),
            _ => None,
        }
    }

    /// The rc file: the lines, with a line feed between neighbours.
    pub open spec fn vimrc(&self) -> Option<Seq<char>> {
        match self.spec_lines() {
            Some(lines) => Some(joined(lines, "\n"@)),
            None => None,
        }
    }

    /// Renders the section as an rc file, or `None` where one of its
    /// values cannot be printed.
    pub fn try_to_vimrc(&self) -> (contents: Option<String>)
        ensures
            text_view(contents) == self.vimrc(),
    {
        let mut contents: Vec<String> = match lines_for(Verb::Setting, &self.set) {
            Some(sets) => sets,
            None => {
                return None;
            },
        };
        let ghost sets = contents.deep_view();
        let mut global_sets = match lines_for(Verb::GlobalSetting, &self.setglobal) {
            Some(global_sets) => global_sets,
            None => {
                return None;
            },
        };
        let ghost globals = global_sets.deep_view();
        contents.append(&mut global_sets);
        let mut lets = match lines_for(Verb::Variable, &self.let_) {
            Some(lets) => lets,
            None => {
                return None;
            },
        };
        let ghost variables = lets.deep_view();
        contents.append(&mut lets);
        proof {
            assert(contents.deep_view() =~= sets + globals + variables);
        }
        match &self.colorscheme {
            Some(colorscheme) => {
                contents.push(glue("colorscheme ", colorscheme.as_str()));
                proof {
                    assert(contents.deep_view() =~= sets + globals + variables
                        + self.scheme_lines());
                }
            },
            None => {
                proof {
                    assert(contents.deep_view() =~= sets + globals + variables
                        + self.scheme_lines());
                }
            },
        }
        Some(join(&contents, "\n"))
    }

    /// Renders the section as an rc file in vim's own language.
    pub fn to_vimrc(&self) -> (contents: String)
        requires
            self.vimrc() is Some,
        ensures
            Some(contents@) == self.vimrc(),
    {
        match self.try_to_vimrc() {
            Some(contents) => contents,
            None => unreached(),
        }
    }
}

/// The `vim` and `nvim` sections.
#[derive(Debug)]
pub struct _Config {
    /// The settings for dark mode.
    pub dark: ConfigSection,
    /// The settings for light mode.
    pub light: ConfigSection,
    /// Whether the editor is left alone.
    pub disabled: bool,
}

impl _Config {
    /// The settings that the operation selects.
    pub open spec fn section(&self, operation: Operation) -> ConfigSection {
        match operation {
            Operation::Darken => self.dark,
            Operation::Lighten => self.light,
        }
    }
}

impl Disableable for _Config {
    open spec fn is_disabled(&self) -> bool {
        self.disabled
    }

    fn disabled(&self) -> (b: bool) {
        self.disabled
    }
}

impl AppConfig for _Config {

}

/// What the configuration file holds for one of the editors.
pub type Config = Section<_Config>;

/// The message that the editors read: the rc file to source.
#[derive(Debug, Clone, PartialEq, Eq)]
pub struct WirePayload {
    /// The path of the rc file.
    pub rc_file: String,
}

impl View for WirePayload {
    type V = Seq<char>;

    open spec fn view(&self) -> Seq<char> {
        self.rc_file@
    }
}

/// The parts of the path of an rc file below the user's data directory.
pub fn rc_path(data_dir: &str, rc_name: &str) -> (path: Vec<String>)
    ensures
        path.deep_view() == seq![data_dir@, "thcon/"@, rc_name@],
{
    let mut path: Vec<String> = Vec::new();
    path.push(String::from_str(data_dir));
    path.push(String::from_str("thcon/"));
    path.push(String::from_str(rc_name));
    proof {
        assert(path.deep_view() =~= seq![data_dir@, "thcon/"@, rc_name@]);
    }
    path
}

/// Whether an editor can be switched: not with a section that lacks the
/// settings, and not with a setting that cannot be printed.
pub open spec fn anyvim_ready(section: &Option<Config>, operation: Operation) -> bool {
    match ConfigState::manual(spec_peek(section)) {
        ConfigState::Default => false,
        ConfigState::Enabled => section->0.settings().section(operation).vimrc() is Some,
        _ => true,
    }
}

/// What switching an editor takes.
pub open spec fn anyvim_plan(
    section: &Option<Config>,
    operation: Operation,
    section_name: Seq<char>,
    rc_name: Seq<char>,
) -> Result<PlanView, Seq<char>> {
    match ConfigState::manual(spec_peek(section)) {
        ConfigState::NoDefault => Err(section_name + " requires manual configuration"@),
        ConfigState::Disabled => Ok(PlanView::Nothing),
        _ => Ok(
            PlanView::Vim {
                section: section_name,
                rc_name,
                vimrc: section->0.settings().section(operation).vimrc()->0,
            },
        ),
    }
}

/// Tells whether an editor can be switched.
fn anyvim_can_switch(
    section: &Option<Config>,
    config_state: ConfigState,
    operation: &Operation,
) -> (ready: bool)
    requires
        config_state == ConfigState::manual(spec_peek(section)),
    ensures
        ready == anyvim_ready(section, *operation),
{
    match config_state {
        ConfigState::Default => false,
        ConfigState::Enabled => match section {
            Some(section) => {
                let settings = section.unwrap_inner_left();
                let payload = match operation {
                    Operation::Darken => &settings.dark,
                    Operation::Lighten => &settings.light,
                };
                payload.try_to_vimrc().is_some()
            },
            None => unreached(),
        },
        _ => true,
    }
}

/// Works out what switching an editor takes, whichever of the two it is.
fn anyvim_switch(
    section: &Option<Config>,
    config_state: ConfigState,
    operation: &Operation,
    section_name: &'static str,
    rc_name: &'static str,
) -> (outcome: Result<Plan, ConfigError>)
    requires
        config_state == ConfigState::manual(spec_peek(section)),
        anyvim_ready(section, *operation),
    ensures
        crate::themeable::outcome_view(outcome) == anyvim_plan(
            section,
            *operation,
            section_name@,
            rc_name@,
        ),
{
    let settings = match config_state {
        ConfigState::NoDefault => {
            return Err(ConfigError::RequiresManualConfig(section_name))
        },
        ConfigState::Default => unreached(),
        ConfigState::Disabled => return Ok(Plan::Nothing),
        ConfigState::Enabled => match section {
            Some(section) => section.unwrap_inner_left(),
            None => unreached(),
        },
    };
    let payload = match operation {
        Operation::Darken => &settings.dark,
        Operation::Lighten => &settings.light,
    };
    Ok(Plan::Vim { section: section_name, rc_name, vimrc: payload.to_vimrc() })
}

/// The vim editor.
#[derive(Debug)]
pub struct Vim;

impl Vim {
    /// The name of vim's section, and of the directory of its sockets.
    pub const SECTION_NAME: &'static str = "vim";

    /// The name of vim's rc file.
    pub const RC_NAME: &'static str = "vimrc";
}

impl Themeable for Vim {
    open spec fn state_of(&self, config: &ThconConfig) -> ConfigState {
        ConfigState::manual(spec_peek(&config.vim))
    }

    open spec fn ready(&self, config: &ThconConfig, operation: Operation) -> bool {
        anyvim_ready(&config.vim, operation)
    }

    open spec fn plan_of(&self, config: &ThconConfig, operation: Operation) -> Result<
        PlanView,
        Seq<char>,
    > {
        anyvim_plan(&config.vim, operation, "vim"@, "vimrc"@)
    }

    fn config_state(&self, config: &ThconConfig) -> (state: ConfigState) {
        ConfigState::with_manual_config(peek(&config.vim))
    }

    fn can_switch(&self, config: &ThconConfig, operation: &Operation) -> (ready: bool) {
        let config_state = self.config_state(config);
        anyvim_can_switch(&config.vim, config_state, operation)
    }

    fn switch(&self, config: &ThconConfig, operation: &Operation) -> (outcome: Result<
        Plan,
        ConfigError,
    >) {
        let config_state = self.config_state(config);
        anyvim_switch(&config.vim, config_state, operation, "vim", "vimrc")
    }
}

/// The Neovim editor.
#[derive(Debug)]
pub struct Neovim;

impl Neovim {
    /// The name of Neovim's section, and of the directory of its sockets.
    pub const SECTION_NAME: &'static str = "nvim";

    /// The name of Neovim's rc file.
    pub const RC_NAME: &'static str = "nvimrc";
}

impl Themeable for Neovim {
    open spec fn state_of(&self, config: &ThconConfig) -> ConfigState {
        ConfigState::manual(spec_peek(&config.nvim))
    }

    open spec fn ready(&self, config: &ThconConfig, operation: Operation) -> bool {
        anyvim_ready(&config.nvim, operation)
    }

    open spec fn plan_of(&self, config: &ThconConfig, operation: Operation) -> Result<
        PlanView,
        Seq<char>,
    > {
        anyvim_plan(&config.nvim, operation, "nvim"@, "nvimrc"@)
    }

    fn config_state(&self, config: &ThconConfig) -> (state: ConfigState) {
        ConfigState::with_manual_config(peek(&config.nvim))
    }

    fn can_switch(&self, config: &ThconConfig, operation: &Operation) -> (ready: bool) {
        let config_state = self.config_state(config);
        anyvim_can_switch(&config.nvim, config_state, operation)
    }

    fn switch(&self, config: &ThconConfig, operation: &Operation) -> (outcome: Result<
        Plan,
        ConfigError,
    >) {
        let config_state = self.config_state(config);
        anyvim_switch(&config.nvim, config_state, operation, "nvim", "nvimrc")
    }
}

} // verus!
