//! The applications that can be switched.

use vstd::prelude::*;

use crate::config::Config;
use crate::operation::Operation;
use crate::plan::PlanView;
use crate::platform::Platform;
use crate::text::str_eq;
use crate::themeable::{ConfigState, Themeable};

pub mod alacritty;
pub mod atom;
pub mod gnome_shell;
pub mod gnome_terminal;
pub mod gtk;
pub mod iterm2;
pub mod konsole;
pub mod macos;
pub mod plasma;
pub mod sublime_text;
pub mod terminal_dot_app;
pub mod vim;
pub mod vscode;
pub mod windows;

pub use alacritty::Alacritty;
pub use atom::Atom;
pub use gnome_shell::GnomeShell;
pub use gnome_terminal::GnomeTerminal;
pub use gtk::Gtk;
pub use iterm2::Iterm2;
pub use konsole::Konsole;
pub use macos::MacOS;
pub use plasma::Plasma;
pub use sublime_text::SublimeText;
pub use terminal_dot_app::TerminalDotApp;
pub use vim::{Neovim, Vim};
pub use vscode::VSCode;
pub use windows::Windows;

verus! {

/// The names of the applications that can be switched on a platform, in
/// the order in which they are listed to the user.
pub open spec fn names_on(platform: Platform) -> Seq<Seq<char>> {
    match platform {
        Platform::Dbus => seq![
            "alacritty"@,
            "atom"@,
            "gnome-shell"@,
            "gnome-terminal"@,
            "gtk"@,
            "konsole"@,
            "nvim"@,
            "plasma"@,
            "sublime-text"@,
            "vim"@,
            "vscode"@,
        ],
        Platform::Mac => seq![
            "alacritty"@,
            "atom"@,
            "iterm2"@,
            "macos"@,
            "terminal-app"@,
            "nvim"@,
            "sublime-text"@,
            "vim"@,
            "vscode"@,
        ],
        Platform::Other => seq![
            "alacritty"@,
            "atom"@,
            "nvim"@,
            "sublime-text"@,
            "vim"@,
            "vscode"@,
        ],
    }
}

/// A name that is not that of an application.
#[derive(Debug, Clone)]
pub struct UnsupportedApp {
    app: String,
}

impl UnsupportedApp {
    /// The error for a name.
    pub fn new(app: &str) -> (error: Self)
        ensures
            error.spec_app() == app@,
    {
        UnsupportedApp { app: String::from_str(app) }
    }

    /// The name that was not recognised.
    pub closed spec fn spec_app(&self) -> Seq<char> {
        self.app@
    }

    /// Returns the name that was not recognised.
    pub fn app(&self) -> (name: &str)
        ensures
            name@ == self.spec_app(),
    {
        self.app.as_str()
    }

    /// Returns the error as a sentence for the user.
    pub fn message(&self) -> (text: String)
        ensures
            text@ == "Unsupported application '"@ + self.spec_app() + "'"@,
    {
        crate::plan::wrap("Unsupported application '", self.app.as_str(), "'")
    }
}

/// Whether a name is that of an application that can be switched on a
/// platform.
pub open spec fn known(name: Seq<char>, platform: Platform) -> bool {
    ||| platform == Platform::Dbus && (name == "konsole"@ || name == "gnome-shell"@ || name
        == "gnome-terminal"@ || name == "gtk"@ || name == "plasma"@)
    ||| platform == Platform::Mac && (name == "macos"@ || name == "terminal-app"@ || name
        == "iterm2"@)
    ||| name == "vscode"@
    ||| name == "alacritty"@
    ||| name == "vim"@
    ||| name == "nvim"@
    ||| name == "sublime-text"@
    ||| name == "atom"@
}

/// The state that the configuration resolves to for the application of a
/// name.
pub open spec fn state_for(name: Seq<char>, config: &Config) -> ConfigState {
    if name == "konsole"@ {
        (Konsole {  }).state_of(config)
    } else if name == "gnome-shell"@ {
        (GnomeShell {  }).state_of(config)
    } else if name == "gnome-terminal"@ {
        (GnomeTerminal {  }).state_of(config)
    } else if name == "gtk"@ {
        (Gtk {  }).state_of(config)
    } else if name == "plasma"@ {
        Plasma.state_of(config)
    } else if name == "macos"@ {
        MacOS.state_of(config)
    } else if name == "terminal-app"@ {
        TerminalDotApp.state_of(config)
    } else if name == "iterm2"@ {
        Iterm2.state_of(config)
    } else if name == "vscode"@ {
        VSCode.state_of(config)
    } else if name == "alacritty"@ {
        (Alacritty {  }).state_of(config)
    } else if name == "vim"@ {
        Vim.state_of(config)
    } else if name == "nvim"@ {
        Neovim.state_of(config)
    } else if name == "sublime-text"@ {
        SublimeText.state_of(config)
    } else {
        (Atom {  }).state_of(config)
    }
}

/// Whether the application of a name can be switched under a
/// configuration.
pub open spec fn ready_for(name: Seq<char>, config: &Config, operation: Operation) -> bool {
    if name == "konsole"@ {
        (Konsole {  }).ready(config, operation)
    } else if name == "gnome-shell"@ {
        (GnomeShell {  }).ready(config, operation)
    } else if name == "gnome-terminal"@ {
        (GnomeTerminal {  }).ready(config, operation)
    } else if name == "gtk"@ {
        (Gtk {  }).ready(config, operation)
    } else if name == "plasma"@ {
        Plasma.ready(config, operation)
    } else if name == "macos"@ {
        MacOS.ready(config, operation)
    } else if name == "terminal-app"@ {
        TerminalDotApp.ready(config, operation)
    } else if name == "iterm2"@ {
        Iterm2.ready(config, operation)
    } else if name == "vscode"@ {
        VSCode.ready(config, operation)
    } else if name == "alacritty"@ {
        (Alacritty {  }).ready(config, operation)
    } else if name == "vim"@ {
        Vim.ready(config, operation)
    } else if name == "nvim"@ {
        Neovim.ready(config, operation)
    } else if name == "sublime-text"@ {
        SublimeText.ready(config, operation)
    } else {
        (Atom {  }).ready(config, operation)
    }
}

/// What switching the application of a name takes.
pub open spec fn plan_for(name: Seq<char>, config: &Config, operation: Operation) -> Result<
    PlanView,
    Seq<char>,
> {
    if name == "konsole"@ {
        (Konsole {  }).plan_of(config, operation)
    } else if name == "gnome-shell"@ {
        (GnomeShell {  }).plan_of(config, operation)
    } else if name == "gnome-terminal"@ {
        (GnomeTerminal {  }).plan_of(config, operation)
    } else if name == "gtk"@ {
        (Gtk {  }).plan_of(config, operation)
    } else if name == "plasma"@ {
        Plasma.plan_of(config, operation)
    } else if name == "macos"@ {
        MacOS.plan_of(config, operation)
    } else if name == "terminal-app"@ {
        TerminalDotApp.plan_of(config, operation)
    } else if name == "iterm2"@ {
        Iterm2.plan_of(config, operation)
    } else if name == "vscode"@ {
        VSCode.plan_of(config, operation)
    } else if name == "alacritty"@ {
        (Alacritty {  }).plan_of(config, operation)
    } else if name == "vim"@ {
        Vim.plan_of(config, operation)
    } else if name == "nvim"@ {
        Neovim.plan_of(config, operation)
    } else if name == "sublime-text"@ {
        SublimeText.plan_of(config, operation)
    } else {
        (Atom {  }).plan_of(config, operation)
    }
}

/// No two applications share a name.
pub proof fn lemma_names_differ()
    ensures
        names_on(Platform::Dbus).no_duplicates(),
        names_on(Platform::Mac).no_duplicates(),
        names_on(Platform::Other).no_duplicates(),
        "konsole"@ != "macos"@,
        "konsole"@ != "terminal-app"@,
        "konsole"@ != "iterm2"@,
        "gnome-shell"@ != "macos"@,
        "gnome-shell"@ != "terminal-app"@,
        "gnome-shell"@ != "iterm2"@,
        "gnome-terminal"@ != "macos"@,
        "gnome-terminal"@ != "terminal-app"@,
        "gnome-terminal"@ != "iterm2"@,
        "gtk"@ != "macos"@,
        "gtk"@ != "terminal-app"@,
        "gtk"@ != "iterm2"@,
        "plasma"@ != "macos"@,
        "plasma"@ != "terminal-app"@,
        "plasma"@ != "iterm2"@,
{
    reveal_strlit("konsole");
    reveal_strlit("gnome-shell");
    reveal_strlit("gnome-terminal");
    reveal_strlit("gtk");
    reveal_strlit("plasma");
    reveal_strlit("macos");
    reveal_strlit("terminal-app");
    reveal_strlit("iterm2");
    reveal_strlit("vscode");
    reveal_strlit("alacritty");
    reveal_strlit("vim");
    reveal_strlit("nvim");
    reveal_strlit("sublime-text");
    reveal_strlit("atom");
    assert("gnome-shell"@[6] != "gnome-terminal"@[6]);
    assert("konsole"@[0] != "iterm2"@[0]);
    assert("plasma"@[0] != "iterm2"@[0]);
    assert("plasma"@[0] != "vscode"@[0]);
    assert("iterm2"@[0] != "vscode"@[0]);
    assert("gtk"@[0] != "vim"@[0]);
    assert("macos"@[0] != "atom"@[0]);
    assert("nvim"@[0] != "atom"@[0]);
    assert("macos"@[0] != "nvim"@[0]);
    assert("gnome-shell"@[0] != "terminal-app"@[0]);
    assert("gnome-shell"@[0] != "sublime-text"@[0]);
    assert("terminal-app"@[0] != "sublime-text"@[0]);
    let dbus = names_on(Platform::Dbus);
    assert forall|i: int, j: int| 0 <= i < j < dbus.len() implies dbus[i] != dbus[j] by {
        assert(dbus[i].len() != dbus[j].len() || dbus[i][0] != dbus[j][0]);
    }
    let mac = names_on(Platform::Mac);
    assert forall|i: int, j: int| 0 <= i < j < mac.len() implies mac[i] != mac[j] by {
        assert(mac[i].len() != mac[j].len() || mac[i][0] != mac[j][0]);
    }
    let other = names_on(Platform::Other);
    assert forall|i: int, j: int| 0 <= i < j < other.len() implies other[i] != other[j] by {
        assert(other[i].len() != other[j].len() || other[i][0] != other[j][0]);
    }
}

/// The applications that can be switched on a platform are those that
/// are listed for it.
pub proof fn lemma_known_is_listed(name: Seq<char>, platform: Platform)
    ensures
        known(name, platform) <==> names_on(platform).contains(name),
{
    let names = names_on(platform);
    if known(name, platform) {
        match platform {
            Platform::Dbus => {
                assert(names[0] == "alacritty"@ && names[1] == "atom"@ && names[2]
                    == "gnome-shell"@ && names[3] == "gnome-terminal"@ && names[4] == "gtk"@
                    && names[5] == "konsole"@ && names[6] == "nvim"@ && names[7] == "plasma"@
                    && names[8] == "sublime-text"@ && names[9] == "vim"@ && names[10]
                    == "vscode"@);
            },
            Platform::Mac => {
                assert(names[0] == "alacritty"@ && names[1] == "atom"@ && names[2] == "iterm2"@
                    && names[3] == "macos"@ && names[4] == "terminal-app"@ && names[5]
                    == "nvim"@ && names[6] == "sublime-text"@ && names[7] == "vim"@ && names[8]
                    == "vscode"@);
            },
            Platform::Other => {
                assert(names[0] == "alacritty"@ && names[1] == "atom"@ && names[2] == "nvim"@
                    && names[3] == "sublime-text"@ && names[4] == "vim"@ && names[5]
                    == "vscode"@);
            },
        }
    }
}

/// An application that is switched off takes nothing to switch.
pub proof fn lemma_disabled_takes_nothing(
    name: Seq<char>,
    config: &Config,
    operation: Operation,
    platform: Platform,
)
    requires
        known(name, platform),
        state_for(name, config) == ConfigState::Disabled,
    ensures
        plan_for(name, config, operation) == Ok::<PlanView, Seq<char>>(PlanView::Nothing),
{
}

/// An application has no plan exactly when it lacks its settings.
pub proof fn lemma_plan_fails_without_settings(
    name: Seq<char>,
    config: &Config,
    operation: Operation,
    platform: Platform,
)
    requires
        known(name, platform),
    ensures
        plan_for(name, config, operation) is Err <==> state_for(name, config)
            == ConfigState::NoDefault,
{
}

/// Whether an application behaves as the one of a name does.
pub open spec fn stands_for(app: &Box<dyn Themeable>, name: Seq<char>) -> bool {
    &&& forall|config: &Config| #[trigger] app.state_of(config) == state_for(name, config)
    &&& forall|config: &Config, operation: Operation| #[trigger]
        app.ready(config, operation) == ready_for(name, config, operation)
    &&& forall|config: &Config, operation: Operation| #[trigger]
        app.plan_of(config, operation) == plan_for(name, config, operation)
}

/// Finds the application of a name, if the name is that of an application
/// that can be switched on the platform.
pub fn get(name: &str, platform: Platform) -> (app: Option<Box<dyn Themeable>>)
    ensures
        app is Some <==> known(name@, platform),
        app matches Some(found) ==> stands_for(&found, name@),
{
    proof {
        lemma_names_differ();
    }
    let dbus = match platform {
        Platform::Dbus => true,
        _ => false,
    };
    let mac = match platform {
        Platform::Mac => true,
        _ => false,
    };
    if str_eq(name, "konsole") {
        if dbus {
            Some(Box::new(Konsole {  }))
        } else {
            None
        }
    } else if str_eq(name, "gnome-shell") {
        if dbus {
            Some(Box::new(GnomeShell {  }))
        } else {
            None
        }
    } else if str_eq(name, "gnome-terminal") {
        if dbus {
            Some(Box::new(GnomeTerminal {  }))
        } else {
            None
        }
    } else if str_eq(name, "gtk") {
        if dbus {
            Some(Box::new(Gtk {  }))
        } else {
            None
        }
    } else if str_eq(name, "plasma") {
        if dbus {
            Some(Box::new(Plasma {  }))
        } else {
            None
        }
    } else if str_eq(name, "macos") {
        if mac {
            Some(Box::new(MacOS {  }))
        } else {
            None
        }
    } else if str_eq(name, "terminal-app") {
        if mac {
            Some(Box::new(TerminalDotApp {  }))
        } else {
            None
        }
    } else if str_eq(name, "iterm2") {
        if mac {
            Some(Box::new(Iterm2 {  }))
        } else {
            None
        }
    } else if str_eq(name, "vscode") {
        Some(Box::new(VSCode {  }))
    } else if str_eq(name, "alacritty") {
        Some(Box::new(Alacritty {  }))
    } else if str_eq(name, "vim") {
        Some(Box::new(Vim {  }))
    } else if str_eq(name, "nvim") {
        Some(Box::new(Neovim {  }))
    } else if str_eq(name, "sublime-text") {
        Some(Box::new(SublimeText {  }))
    } else if str_eq(name, "atom") {
        Some(Box::new(Atom {  }))
    } else {
        None
    }
}

/// Lists the names of the applications that can be switched on a
/// platform.
pub fn all_names(platform: Platform) -> (names: Vec<&'static str>)
    ensures
        names.deep_view() == names_on(platform),
{
    let mut names: Vec<&'static str> = Vec::new();
    names.push("alacritty");
    names.push("atom");
    match platform {
        Platform::Dbus => {
            names.push("gnome-shell");
            names.push("gnome-terminal");
            names.push("gtk");
            names.push("konsole");
        },
        Platform::Mac => {
            names.push("iterm2");
            names.push("macos");
            names.push("terminal-app");
        },
        Platform::Other => {},
    }
    names.push("nvim");
    match platform {
        Platform::Dbus => {
            names.push("plasma");
        },
        _ => {},
    }
    names.push("sublime-text");
    names.push("vim");
    names.push("vscode");
    proof {
        assert(names.deep_view() =~= names_on(platform));
    }
    names
}

} // verus!
