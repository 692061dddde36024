//! The configuration file as a whole.

use vstd::prelude::*;

use crate::app::alacritty;
use crate::app::atom;
use crate::app::gnome_shell;
use crate::app::gnome_terminal;
use crate::app::gtk;
use crate::app::iterm2;
use crate::app::konsole;
use crate::app::macos;
use crate::app::plasma;
use crate::app::sublime_text;
use crate::app::terminal_dot_app;
use crate::app::vim;
use crate::app::vscode;
use crate::app::windows;

verus! {

/// The configuration: one optional section for each application.
#[derive(Debug)]
pub struct Config {
    /// The `plasma` section.
    pub plasma: Option<plasma::Config>,
    /// The `konsole` section.
    pub konsole: Option<konsole::Config>,
    /// The `gnome-shell` section.
    pub gnome_shell: Option<gnome_shell::Config>,
    /// The `gnome-terminal` section.
    pub gnome_terminal: Option<gnome_terminal::Config>,
    /// The `gtk` section.
    pub gtk: Option<gtk::Config>,
    /// The `vscode` section.
    pub vscode: Option<vscode::Config>,
    /// The `alacritty` section.
    pub alacritty: Option<alacritty::Config>,
    /// The `vim` section.
    pub vim: Option<vim::Config>,
    /// The `nvim` section.
    pub nvim: Option<vim::Config>,
    /// The `iterm2` section.
    pub iterm2: Option<iterm2::Config>,
    /// The `macos` section.
    pub macos: Option<macos::Config>,
    /// The `terminal-app` section.
    pub terminal_dot_app: Option<terminal_dot_app::Config>,
    /// The `sublime-text` section.
    pub sublime_text: Option<sublime_text::Config>,
    /// The `atom` section.
    pub atom: Option<atom::Config>,
    /// The `windows` section.
    pub windows: Option<windows::Config>,
}

impl Config {
    /// Whether the configuration holds no section at all.
    pub open spec fn is_empty(&self) -> bool {
        &&& self.plasma is None
        &&& self.konsole is None
        &&& self.gnome_shell is None
        &&& self.gnome_terminal is None
        &&& self.gtk is None
        &&& self.vscode is None
        &&& self.alacritty is None
        &&& self.vim is None
        &&& self.nvim is None
        &&& self.iterm2 is None
        &&& self.macos is None
        &&& self.terminal_dot_app is None
        &&& self.sublime_text is None
        &&& self.atom is None
        &&& self.windows is None
    }
}

impl Default for Config {
    /// The configuration of an empty file.
    fn default() -> (config: Self)
        ensures
            config.is_empty(),
    {
        Config {
            plasma: None,
            konsole: None,
            gnome_shell: None,
            gnome_terminal: None,
            gtk: None,
            vscode: None,
            alacritty: None,
            vim: None,
            nvim: None,
            iterm2: None,
            macos: None,
            terminal_dot_app: None,
            sublime_text: None,
            atom: None,
            windows: None,
        }
    }
}

} // verus!
