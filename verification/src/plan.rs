//! What has to be done to switch one application.
//!
//! A [`Plan`] names the effect and holds every value that the effect needs;
//! carrying it out is left to the caller.

use vstd::prelude::*;

verus! {

/// A program to run, with its arguments.
#[derive(Debug, Clone, PartialEq, Eq)]
pub struct Command {
    /// The program's name, looked up on the search path.
    pub program: String,
    /// The arguments, in order.
    pub args: Vec<String>,
    /// Whether the program's error output is thrown away.
    pub silence_stderr: bool,
    /// Whether a program that cannot be started, or ends unsuccessfully,
    /// fails the switch with `failure`.  Where this is `false` the exit
    /// status is not looked at, and a program that cannot be started is
    /// fatal.
    pub must_succeed: bool,
    /// The text that reports a failure.
    pub failure: String,
}

/// The model of a [`Command`].
pub struct CommandView {
    pub program: Seq<char>,
    pub args: Seq<Seq<char>>,
    pub silence_stderr: bool,
    pub must_succeed: bool,
    pub failure: Seq<char>,
}

impl View for Command {
    type V = CommandView;

    open spec fn view(&self) -> CommandView {
        CommandView {
            program: self.program@,
            args: self.args.deep_view(),
            silence_stderr: self.silence_stderr,
            must_succeed: self.must_succeed,
            failure: self.failure@,
        }
    }
}

/// A key of the desktop's settings store and the value to store under it.
#[derive(Debug, Clone, PartialEq, Eq)]
pub struct Setting {
    /// The schema that holds the key.
    pub schema: String,
    /// The key.
    pub key: String,
    /// The new value.
    pub value: String,
    /// The text that reports a failure.
    pub failure: String,
}

/// The model of a [`Setting`].
pub struct SettingView {
    pub schema: Seq<char>,
    pub key: Seq<char>,
    pub value: Seq<char>,
    pub failure: Seq<char>,
}

impl View for Setting {
    type V = SettingView;

    open spec fn view(&self) -> SettingView {
        SettingView {
            schema: self.schema@,
            key: self.key@,
            value: self.value@,
            failure: self.failure@,
        }
    }
}

/// What the caller sends along with a message-bus call.
#[derive(Debug, Clone, PartialEq, Eq)]
pub enum BusArgs {
    /// No argument.
    Empty,
    /// One string.
    Text(String),
    /// An action's name, its new state as a variant, and an empty
    /// dictionary of platform data.
    State { action: String, state: String },
}

/// The model of [`BusArgs`].
pub enum BusArgsView {
    Empty,
    Text(Seq<char>),
    State { action: Seq<char>, state: Seq<char> },
}

impl View for BusArgs {
    type V = BusArgsView;

    open spec fn view(&self) -> BusArgsView {
        match self {
            BusArgs::Empty => BusArgsView::Empty,
            BusArgs::Text(text) => BusArgsView::Text(text@),
            BusArgs::State { action, state } => BusArgsView::State {
                action: action@,
                state: state@,
            },
        }
    }
}

/// A method call on the session's message bus.
#[derive(Debug, Clone, PartialEq, Eq)]
pub struct BusCall {
    /// The service that is called.
    pub destination: String,
    /// The object's path.
    pub path: String,
    /// The interface that holds the method.
    pub interface: String,
    /// The method.
    pub member: String,
    /// The arguments.
    pub args: BusArgs,
    /// The text that reports a failure; empty where the bus's own error
    /// is reported as it is.
    pub failure: String,
}

/// The model of a [`BusCall`].
pub struct BusCallView {
    pub destination: Seq<char>,
    pub path: Seq<char>,
    pub interface: Seq<char>,
    pub member: Seq<char>,
    pub args: BusArgsView,
    pub failure: Seq<char>,
}

impl View for BusCall {
    type V = BusCallView;

    open spec fn view(&self) -> BusCallView {
        BusCallView {
            destination: self.destination@,
            path: self.path@,
            interface: self.interface@,
            member: self.member@,
            args: self.args@,
            failure: self.failure@,
        }
    }
}

/// The models of a list of calls.
pub open spec fn calls_view(calls: Seq<BusCall>) -> Seq<BusCallView> {
    Seq::new(calls.len(), |i: int| calls[i]@)
}

/// The model of an optional call.
pub open spec fn call_view(call: Option<BusCall>) -> Option<BusCallView> {
    match call {
        None => None,
        Some(call) => Some(call@),
    }
}

/// What switching one application takes.
#[derive(Debug, Clone, PartialEq, Eq)]
#[allow(inconsistent_fields)]
pub enum Plan {
    /// Nothing: the application is switched off in the configuration.
    Nothing,
    /// Run a program.
    Run(Command),
    /// Store a value in the desktop's settings and flush them.
    Store(Setting),
    /// Give every session of every running Konsole the profile, and make
    /// it the default of the first Konsole found.
    Konsole { profile: String },
    /// Give every window of GNOME Terminal the profile, and make it the
    /// default.
    GnomeTerminal { profile: String },
    /// Put the theme into the marked line of Visual Studio Code's
    /// settings.
    VSCode { theme: String },
    /// Put the colour scheme into the marked line of alacritty's
    /// settings; `not_found` is what to report when there is no such file.
    Alacritty { theme: String, not_found: String },
    /// Set the two keys in Sublime Text's preferences, in the file named
    /// or else in the usual one.
    SublimeText {
        color_scheme: Option<String>,
        theme: Option<String>,
        preferences: Option<String>,
    },
    /// Send the themes to every running Atom.
    Atom { themes: Vec<String> },
    /// Send the profile's name to iTerm2.
    Iterm2 { profile: String },
    /// Write the settings to the variant's rc file and tell every running
    /// editor of that variant to read it.
    Vim { section: &'static str, rc_name: &'static str, vimrc: String },
    /// Store the flag under both of Windows' theme keys.
    Windows { light: u32 },
}

/// The model of a [`Plan`].
#[allow(inconsistent_fields)]
pub enum PlanView {
    Nothing,
    Run(CommandView),
    Store(SettingView),
    Konsole { profile: Seq<char> },
    GnomeTerminal { profile: Seq<char> },
    VSCode { theme: Seq<char> },
    Alacritty { theme: Seq<char>, not_found: Seq<char> },
    SublimeText {
        color_scheme: Option<Seq<char>>,
        theme: Option<Seq<char>>,
        preferences: Option<Seq<char>>,
    },
    Atom { themes: Seq<Seq<char>> },
    Iterm2 { profile: Seq<char> },
    Vim { section: Seq<char>, rc_name: Seq<char>, vimrc: Seq<char> },
    Windows { light: u32 },
}

impl View for Plan {
    type V = PlanView;

    open spec fn view(&self) -> PlanView {
        match self {
            Plan::Nothing => PlanView::Nothing,
            Plan::Run(command) => PlanView::Run(command@),
            Plan::Store(setting) => PlanView::Store(setting@),
            Plan::Konsole { profile } => PlanView::Konsole { profile: profile@ },
            Plan::GnomeTerminal { profile } => PlanView::GnomeTerminal { profile: profile@ },
            Plan::VSCode { theme } => PlanView::VSCode { theme: theme@ },
            Plan::Alacritty { theme, not_found } => PlanView::Alacritty {
                theme: theme@,
                not_found: not_found@,
            },
            Plan::SublimeText { color_scheme, theme, preferences } => PlanView::SublimeText {
                color_scheme: text_view(*color_scheme),
                theme: text_view(*theme),
                preferences: text_view(*preferences),
            },
            Plan::Atom { themes } => PlanView::Atom { themes: themes.deep_view() },
            Plan::Iterm2 { profile } => PlanView::Iterm2 { profile: profile@ },
            Plan::Vim { section, rc_name, vimrc } => PlanView::Vim {
                section: section@,
                rc_name: rc_name@,
                vimrc: vimrc@,
            },
            Plan::Windows { light } => PlanView::Windows { light: *light },
        }
    }
}

/// The model of an optional text.
pub open spec fn text_view(text: Option<String>) -> Option<Seq<char>> {
    match text {
        None => None,
        Some(text) => Some(text@),
    }
}

/// Puts `middle` between two fixed texts.
pub fn wrap(before: &str, middle: &str, after: &str) -> (text: String)
    ensures
        text@ == before@ + middle@ + after@,
{
    let mut text = String::from_str(before);
    text.append(middle);
    text.append(after);
    text
}

/// Puts `tail` after a fixed text.
pub fn glue(head: &str, tail: &str) -> (text: String)
    ensures
        text@ == head@ + tail@,
{
    let mut text = String::from_str(head);
    text.append(tail);
    text
}

/// A list of two texts.
pub fn pair(first: &str, second: &str) -> (list: Vec<String>)
    ensures
        list.deep_view() == seq![first@, second@],
{
    let mut list: Vec<String> = Vec::new();
    list.push(String::from_str(first));
    list.push(String::from_str(second));
    proof {
        assert(list.deep_view() =~= seq![first@, second@]);
    }
    list
}

/// Copies an optional text.
pub fn clone_text(text: &Option<String>) -> (copy: Option<String>)
    ensures
        text_view(copy) == text_view(*text),
{
    match text {
        None => None,
        Some(text) => Some(text.clone()),
    }
}

/// Copies a list of texts.
pub fn clone_texts(texts: &Vec<String>) -> (copy: Vec<String>)
    ensures
        copy.deep_view() == texts.deep_view(),
{
    let mut copy: Vec<String> = Vec::new();
    let mut i: usize = 0;
    while i < texts.len()
        invariant
            i <= texts.len(),
            copy.len() == i,
            forall|k: int| 0 <= k < i ==> copy[k]@ == texts[k]@,
        decreases texts.len() - i,
    {
        copy.push(texts[i].clone());
        i = i + 1;
    }
    proof {
        assert(copy.deep_view() =~= texts.deep_view());
    }
    copy
}

} // verus!
