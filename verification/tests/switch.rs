use thcon::app::{all_names, get, gnome_shell, plasma, UnsupportedApp};
use thcon::plan::Plan;
use thcon::switch::{has_errors, is_sound, try_switch, Outcome, SwitchError};
use thcon::{switch, Config, ConfigState, Disabled, Operation, Platform, Section};

#[test]
fn unknown_names_are_passed_over() {
    let config = Config::default();
    assert_eq!(
        switch(&config, "emacs", true, &Operation::Darken, Platform::Dbus),
        Ok(Outcome::Unknown)
    );
    assert_eq!(
        switch(&config, "macos", true, &Operation::Darken, Platform::Dbus),
        Ok(Outcome::Unknown)
    );
    assert_eq!(
        switch(&config, "plasma", false, &Operation::Darken, Platform::Mac),
        Ok(Outcome::Unknown)
    );
    assert_eq!(
        switch(&config, "gtk", false, &Operation::Darken, Platform::Other),
        Ok(Outcome::Unknown)
    );
    assert_eq!(
        switch(&config, "", false, &Operation::Darken, Platform::Other),
        Ok(Outcome::Unknown)
    );
}

#[test]
fn missing_settings_fail_only_when_asked_for() {
    let config = Config::default();
    let asked = switch(&config, "alacritty", true, &Operation::Darken, Platform::Dbus);
    assert_eq!(asked, Err(SwitchError::Skipped { name: "alacritty".to_string() }));
    assert_eq!(
        asked.unwrap_err().message(),
        "skipping alacritty (needs manual configuration)"
    );
    assert_eq!(
        switch(&config, "alacritty", false, &Operation::Darken, Platform::Dbus),
        Ok(Outcome::NeedsConfig)
    );
}

#[test]
fn disabled_applications_are_passed_over() {
    let mut config = Config::default();
    config.plasma = Some(Section::bare(Disabled::new(true)));
    assert_eq!(
        switch(&config, "plasma", true, &Operation::Darken, Platform::Dbus),
        Ok(Outcome::Disabled)
    );
    config.gnome_shell = Some(Section::enabled(gnome_shell::_Config {
        light: "a".to_string(),
        dark: "b".to_string(),
        disabled: true,
    }));
    assert_eq!(
        switch(&config, "gnome-shell", false, &Operation::Lighten, Platform::Dbus),
        Ok(Outcome::Disabled)
    );
}

#[test]
fn built_in_settings_are_told_apart() {
    let mut config = Config::default();
    match switch(&config, "plasma", false, &Operation::Darken, Platform::Dbus) {
        Ok(Outcome::Switch { plan: Plan::Run(command), defaults }) => {
            assert!(defaults);
            assert_eq!(command.args[1], "org.kde.breezedark.desktop");
        }
        other => panic!("{:?}", other),
    }
    config.plasma = Some(Section::enabled(plasma::_Config {
        light: "day".to_string(),
        dark: "night".to_string(),
        disabled: false,
    }));
    match switch(&config, "plasma", false, &Operation::Darken, Platform::Dbus) {
        Ok(Outcome::Switch { plan: Plan::Run(command), defaults }) => {
            assert!(!defaults);
            assert_eq!(command.args[1], "night");
        }
        other => panic!("{:?}", other),
    }
}

#[test]
fn every_application_with_built_in_settings_switches_without_a_section() {
    let config = Config::default();
    for (name, platform) in [
        ("plasma", Platform::Dbus),
        ("gtk", Platform::Dbus),
        ("macos", Platform::Mac),
        ("terminal-app", Platform::Mac),
        ("vscode", Platform::Other),
        ("sublime-text", Platform::Other),
        ("atom", Platform::Other),
    ] {
        assert!(is_sound(&config, name, &Operation::Darken, platform));
        assert!(matches!(
            switch(&config, name, true, &Operation::Darken, platform),
            Ok(Outcome::Switch { defaults: true, .. })
        ));
    }
}

#[test]
fn every_application_without_built_in_settings_needs_a_section() {
    let config = Config::default();
    for (name, platform) in [
        ("konsole", Platform::Dbus),
        ("gnome-shell", Platform::Dbus),
        ("gnome-terminal", Platform::Dbus),
        ("iterm2", Platform::Mac),
        ("alacritty", Platform::Other),
        ("vim", Platform::Other),
        ("nvim", Platform::Other),
    ] {
        assert!(is_sound(&config, name, &Operation::Darken, platform));
        assert_eq!(
            switch(&config, name, false, &Operation::Lighten, platform),
            Ok(Outcome::NeedsConfig)
        );
        assert_eq!(
            switch(&config, name, true, &Operation::Lighten, platform),
            Err(SwitchError::Skipped { name: name.to_string() })
        );
    }
}

#[test]
fn bare_section_of_a_manual_application_is_unsound() {
    let mut config = Config::default();
    config.gnome_shell = Some(Section::bare(Disabled::new(false)));
    assert!(!is_sound(&config, "gnome-shell", &Operation::Darken, Platform::Dbus));
    assert_eq!(try_switch(&config, "gnome-shell", true, &Operation::Darken, Platform::Dbus), None);
    assert!(is_sound(&config, "gnome-shell", &Operation::Darken, Platform::Mac));
    assert_eq!(
        try_switch(&config, "gnome-shell", true, &Operation::Darken, Platform::Mac),
        Some(Ok(Outcome::Unknown))
    );
    assert_eq!(
        try_switch(&config, "gtk", true, &Operation::Darken, Platform::Dbus),
        Some(switch(&config, "gtk", true, &Operation::Darken, Platform::Dbus))
    );
}

#[test]
fn one_failure_fails_the_run() {
    assert!(!has_errors(&vec![]));
    assert!(!has_errors(&vec![false, false]));
    assert!(has_errors(&vec![false, true, false]));
    assert!(has_errors(&vec![true]));
}

#[test]
fn names_are_listed_by_platform() {
    assert_eq!(
        all_names(Platform::Dbus),
        vec![
            "alacritty",
            "atom",
            "gnome-shell",
            "gnome-terminal",
            "gtk",
            "konsole",
            "nvim",
            "plasma",
            "sublime-text",
            "vim",
            "vscode"
        ]
    );
    assert_eq!(
        all_names(Platform::Mac),
        vec![
            "alacritty",
            "atom",
            "iterm2",
            "macos",
            "terminal-app",
            "nvim",
            "sublime-text",
            "vim",
            "vscode"
        ]
    );
    assert_eq!(
        all_names(Platform::Other),
        vec!["alacritty", "atom", "nvim", "sublime-text", "vim", "vscode"]
    );
}

#[test]
fn listed_names_are_exactly_the_known_ones() {
    let every = [
        "alacritty",
        "atom",
        "gnome-shell",
        "gnome-terminal",
        "gtk",
        "iterm2",
        "konsole",
        "macos",
        "terminal-app",
        "nvim",
        "plasma",
        "sublime-text",
        "vim",
        "vscode",
        "windows",
        "emacs",
    ];
    for platform in [Platform::Dbus, Platform::Mac, Platform::Other] {
        let listed = all_names(platform);
        for name in every {
            assert_eq!(get(name, platform).is_some(), listed.contains(&name), "{}", name);
        }
    }
}

#[test]
fn found_application_is_the_one_of_the_name() {
    let mut config = Config::default();
    config.gnome_shell = Some(Section::bare(Disabled::new(true)));
    assert_eq!(
        get("gnome-shell", Platform::Dbus).unwrap().config_state(&config),
        ConfigState::Disabled
    );
    assert_eq!(get("gtk", Platform::Dbus).unwrap().config_state(&config), ConfigState::Default);
    assert_eq!(
        get("konsole", Platform::Dbus).unwrap().config_state(&config),
        ConfigState::NoDefault
    );
    assert_eq!(
        get("vscode", Platform::Mac).unwrap().switch(&config, &Operation::Darken),
        Ok(Plan::VSCode { theme: "Default Dark+".to_string() })
    );
}

#[test]
fn unsupported_application_names_itself() {
    let error = UnsupportedApp::new("emacs");
    assert_eq!(error.app(), "emacs");
    assert_eq!(error.message(), "Unsupported application 'emacs'");
}
