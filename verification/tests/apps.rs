use thcon::app::{
    atom, gnome_shell, gtk, iterm2, macos, plasma, terminal_dot_app, windows, Atom, GnomeShell,
    Gtk, Iterm2, MacOS, Plasma, TerminalDotApp, Windows,
};
use thcon::plan::{Command, Plan, Setting};
use thcon::{Config, ConfigState, Disabled, Operation, Section, Themeable};

#[test]
fn plasma_defaults_to_breeze() {
    let config = Config::default();
    assert_eq!(Plasma.config_state(&config), ConfigState::Default);
    assert_eq!(
        Plasma.switch(&config, &Operation::Darken),
        Ok(Plan::Run(Command {
            program: "lookandfeeltool".to_string(),
            args: vec!["--apply".to_string(), "org.kde.breezedark.desktop".to_string()],
            silence_stderr: true,
            must_succeed: true,
            failure: "Failed to execute 'lookandfeeltool --apply org.kde.breezedark.desktop'"
                .to_string(),
        }))
    );
    match Plasma.switch(&config, &Operation::Lighten) {
        Ok(Plan::Run(command)) => {
            assert_eq!(command.args, vec!["--apply", "org.kde.breeze.desktop"])
        }
        other => panic!("{:?}", other),
    }
}

#[test]
fn plasma_uses_its_section() {
    let mut config = Config::default();
    config.plasma = Some(Section::enabled(plasma::_Config {
        light: "day".to_string(),
        dark: "night".to_string(),
        disabled: false,
    }));
    assert_eq!(Plasma.config_state(&config), ConfigState::Enabled);
    match Plasma.switch(&config, &Operation::Darken) {
        Ok(Plan::Run(command)) => {
            assert_eq!(command.args, vec!["--apply", "night"]);
            assert_eq!(command.failure, "Failed to execute 'lookandfeeltool --apply night'");
        }
        other => panic!("{:?}", other),
    }
    match Plasma.switch(&config, &Operation::Lighten) {
        Ok(Plan::Run(command)) => assert_eq!(command.args, vec!["--apply", "day"]),
        other => panic!("{:?}", other),
    }
}

#[test]
fn plasma_disabled_does_nothing() {
    let mut config = Config::default();
    config.plasma = Some(Section::bare(Disabled::new(true)));
    assert_eq!(Plasma.config_state(&config), ConfigState::Disabled);
    assert_eq!(Plasma.switch(&config, &Operation::Darken), Ok(Plan::Nothing));
    config.plasma = Some(Section::enabled(plasma::_Config {
        light: "day".to_string(),
        dark: "night".to_string(),
        disabled: true,
    }));
    assert_eq!(Plasma.switch(&config, &Operation::Lighten), Ok(Plan::Nothing));
}

#[test]
fn plasma_bare_section_keeps_the_defaults() {
    let mut config = Config::default();
    config.plasma = Some(Section::bare(Disabled::new(false)));
    assert_eq!(Plasma.config_state(&config), ConfigState::Default);
    match Plasma.switch(&config, &Operation::Darken) {
        Ok(Plan::Run(command)) => {
            assert_eq!(command.args, vec!["--apply", "org.kde.breezedark.desktop"])
        }
        other => panic!("{:?}", other),
    }
}

#[test]
fn macos_sets_the_dark_mode() {
    let config = Config::default();
    assert_eq!(
        MacOS.switch(&config, &Operation::Darken),
        Ok(Plan::Run(Command {
            program: "osascript".to_string(),
            args: vec![
                "-e".to_string(),
                "tell app \"System Events\" to tell appearance preferences to set dark mode to true"
                    .to_string()
            ],
            silence_stderr: false,
            must_succeed: true,
            failure: "Failed to execute 'osascript'".to_string(),
        }))
    );
    match MacOS.switch(&config, &Operation::Lighten) {
        Ok(Plan::Run(command)) => assert!(command.args[1].ends_with("set dark mode to false")),
        other => panic!("{:?}", other),
    }
}

#[test]
fn macos_can_be_disabled() {
    let mut config = Config::default();
    config.macos = Some(Section::enabled(macos::_Config { disabled: true }));
    assert_eq!(MacOS.switch(&config, &Operation::Darken), Ok(Plan::Nothing));
    config.macos = Some(Section::enabled(macos::_Config { disabled: false }));
    assert!(matches!(MacOS.switch(&config, &Operation::Darken), Ok(Plan::Run(_))));
}

#[test]
fn terminal_app_script_names_the_profile() {
    let config = Config::default();
    let expected = format!(
        "tell application \"Terminal\"
                      set new_settings to first settings set whose name is \"{}\"

                      set default settings to new_settings
                      set startup settings to new_settings

                      set current settings of every tab of every window to new_settings
                    end tell",
        "Pro"
    );
    assert_eq!(
        TerminalDotApp.switch(&config, &Operation::Darken),
        Ok(Plan::Run(Command {
            program: "osascript".to_string(),
            args: vec!["-e".to_string(), expected],
            silence_stderr: false,
            must_succeed: false,
            failure: "Failed to execute `osascript`".to_string(),
        }))
    );
    match TerminalDotApp.switch(&config, &Operation::Lighten) {
        Ok(Plan::Run(command)) => assert!(command.args[1].contains("whose name is \"Basic\"")),
        other => panic!("{:?}", other),
    }
}

#[test]
fn terminal_app_uses_its_section() {
    let mut config = Config::default();
    config.terminal_dot_app = Some(Section::enabled(terminal_dot_app::_Config {
        light: "Novel".to_string(),
        dark: "Homebrew".to_string(),
        disabled: false,
    }));
    match TerminalDotApp.switch(&config, &Operation::Darken) {
        Ok(Plan::Run(command)) => assert!(command.args[1].contains("whose name is \"Homebrew\"")),
        other => panic!("{:?}", other),
    }
}

#[test]
fn gnome_shell_needs_a_section() {
    let config = Config::default();
    assert_eq!(GnomeShell {}.config_state(&config), ConfigState::NoDefault);
    assert_eq!(
        GnomeShell {}.switch(&config, &Operation::Darken).map_err(|e| e.message()),
        Err("gnome_shell requires manual configuration".to_string())
    );
}

#[test]
fn gnome_shell_stores_the_user_theme() {
    let mut config = Config::default();
    config.gnome_shell = Some(Section::enabled(gnome_shell::_Config {
        light: "Arc".to_string(),
        dark: "Arc-Dark".to_string(),
        disabled: false,
    }));
    assert_eq!(
        GnomeShell {}.switch(&config, &Operation::Darken),
        Ok(Plan::Store(Setting {
            schema: "org.gnome.shell.extensions.user-theme".to_string(),
            key: "name".to_string(),
            value: "Arc-Dark".to_string(),
            failure: "Unable to apply GNOME Shell user theme 'Arc-Dark'".to_string(),
        }))
    );
    match (GnomeShell {}).switch(&config, &Operation::Lighten) {
        Ok(Plan::Store(setting)) => assert_eq!(setting.value, "Arc"),
        other => panic!("{:?}", other),
    }
}

#[test]
fn manual_application_with_bare_section_cannot_switch() {
    let mut config = Config::default();
    config.gnome_shell = Some(Section::bare(Disabled::new(false)));
    assert_eq!(GnomeShell {}.config_state(&config), ConfigState::Default);
    assert!(!GnomeShell {}.can_switch(&config, &Operation::Darken));
    config.gnome_shell = Some(Section::bare(Disabled::new(true)));
    assert!(GnomeShell {}.can_switch(&config, &Operation::Darken));
    assert_eq!(GnomeShell {}.switch(&config, &Operation::Darken), Ok(Plan::Nothing));
}

#[test]
fn gtk_defaults_to_adwaita() {
    let config = Config::default();
    assert_eq!(
        Gtk {}.switch(&config, &Operation::Darken),
        Ok(Plan::Store(Setting {
            schema: "org.gnome.desktop.interface".to_string(),
            key: "gtk-theme".to_string(),
            value: "Adwaita-dark".to_string(),
            failure: "Unable to apply GTK theme 'Adwaita-dark'".to_string(),
        }))
    );
    match (Gtk {}).switch(&config, &Operation::Lighten) {
        Ok(Plan::Store(setting)) => assert_eq!(setting.value, "Adwaita"),
        other => panic!("{:?}", other),
    }
}

#[test]
fn gtk_uses_its_section() {
    let mut config = Config::default();
    config.gtk = Some(Section::enabled(gtk::_Config {
        light: "Yaru".to_string(),
        dark: "Yaru-dark".to_string(),
        disabled: false,
    }));
    match (Gtk {}).switch(&config, &Operation::Lighten) {
        Ok(Plan::Store(setting)) => {
            assert_eq!(setting.value, "Yaru");
            assert_eq!(setting.failure, "Unable to apply GTK theme 'Yaru'");
        }
        other => panic!("{:?}", other),
    }
}

#[test]
fn iterm2_sends_the_profile() {
    let mut config = Config::default();
    assert_eq!(
        Iterm2.switch(&config, &Operation::Darken).map_err(|e| e.message()),
        Err("iterm2 requires manual configuration".to_string())
    );
    config.iterm2 = Some(Section::enabled(iterm2::_Config {
        dark: "Night".to_string(),
        light: "Day".to_string(),
        disabled: false,
    }));
    assert_eq!(
        Iterm2.switch(&config, &Operation::Darken),
        Ok(Plan::Iterm2 { profile: "Night".to_string() })
    );
    assert_eq!(
        Iterm2.switch(&config, &Operation::Lighten),
        Ok(Plan::Iterm2 { profile: "Day".to_string() })
    );
    assert_eq!(Iterm2::wire_config("Day").profile, "Day");
}

#[test]
fn atom_defaults_to_one() {
    let config = Config::default();
    assert_eq!(
        Atom {}.switch(&config, &Operation::Darken),
        Ok(Plan::Atom { themes: vec!["one-dark-ui".to_string(), "one-dark-syntax".to_string()] })
    );
    assert_eq!(
        Atom {}.switch(&config, &Operation::Lighten),
        Ok(Plan::Atom {
            themes: vec!["one-light-ui".to_string(), "one-light-syntax".to_string()]
        })
    );
}

#[test]
fn atom_uses_its_section() {
    let mut config = Config::default();
    config.atom = Some(Section::enabled(atom::_Config {
        dark: vec!["a".to_string()],
        light: vec!["b".to_string(), "c".to_string(), "d".to_string()],
        disabled: false,
    }));
    assert_eq!(
        Atom {}.switch(&config, &Operation::Lighten),
        Ok(Plan::Atom { themes: vec!["b".to_string(), "c".to_string(), "d".to_string()] })
    );
    let message = Atom::wire_config(&vec!["b".to_string(), "c".to_string()]);
    assert_eq!(message.themes, vec!["b", "c"]);
}

#[test]
fn windows_writes_the_flag_whatever_the_section() {
    let mut config = Config::default();
    assert_eq!(Windows.switch(&config, &Operation::Lighten), Ok(Plan::Windows { light: 1 }));
    assert_eq!(Windows.switch(&config, &Operation::Darken), Ok(Plan::Windows { light: 0 }));
    config.windows = Some(Section::enabled(windows::_Config { disabled: true }));
    assert_eq!(Windows.config_state(&config), ConfigState::Disabled);
    assert_eq!(Windows.switch(&config, &Operation::Darken), Ok(Plan::Windows { light: 0 }));
    assert_eq!(
        windows::PERSONALIZE,
        "SOFTWARE\\Microsoft\\Windows\\CurrentVersion\\Themes\\Personalize"
    );
}
