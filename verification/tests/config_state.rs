use either::Either;
use thcon::app::gtk;
use thcon::{ConfigError, ConfigState, Disableable, Disabled, Operation, Section};

fn settings(disabled: bool) -> gtk::_Config {
    gtk::_Config { light: "l".to_string(), dark: "d".to_string(), disabled }
}

#[test]
fn manual_config_without_section_has_no_default() {
    assert_eq!(
        ConfigState::with_manual_config::<gtk::_Config>(None),
        ConfigState::NoDefault
    );
}

#[test]
fn default_config_without_section_is_default() {
    assert_eq!(ConfigState::with_default_config::<gtk::_Config>(None), ConfigState::Default);
}

#[test]
fn full_section_is_enabled_unless_disabled() {
    let on = settings(false);
    let off = settings(true);
    let switch = Disabled::new(false);
    let _ = &switch;
    assert_eq!(
        ConfigState::with_manual_config(Some(Either::<&gtk::_Config, &Disabled>::Left(&on))),
        ConfigState::Enabled
    );
    assert_eq!(
        ConfigState::with_manual_config(Some(Either::<&gtk::_Config, &Disabled>::Left(&off))),
        ConfigState::Disabled
    );
    assert_eq!(
        ConfigState::with_default_config(Some(Either::<&gtk::_Config, &Disabled>::Left(&on))),
        ConfigState::Enabled
    );
    assert_eq!(
        ConfigState::with_default_config(Some(Either::<&gtk::_Config, &Disabled>::Left(&off))),
        ConfigState::Disabled
    );
}

#[test]
fn bare_section_is_default_unless_disabled() {
    let on = Disabled::new(false);
    let off = Disabled::new(true);
    assert_eq!(
        ConfigState::with_manual_config(Some(Either::<&gtk::_Config, &Disabled>::Right(&on))),
        ConfigState::Default
    );
    assert_eq!(
        ConfigState::with_manual_config(Some(Either::<&gtk::_Config, &Disabled>::Right(&off))),
        ConfigState::Disabled
    );
    assert_eq!(
        ConfigState::with_default_config(Some(Either::<&gtk::_Config, &Disabled>::Right(&on))),
        ConfigState::Default
    );
    assert_eq!(
        ConfigState::with_default_config(Some(Either::<&gtk::_Config, &Disabled>::Right(&off))),
        ConfigState::Disabled
    );
}

#[test]
fn disabled_switch_reads_back() {
    assert!(Disabled::new(true).disabled());
    assert!(!Disabled::new(false).disabled());
    assert!(!Disabled::default().disabled());
    assert!(settings(true).disabled());
    assert!(!settings(false).disabled());
}

#[test]
fn section_hands_out_what_it_holds() {
    let full = Section::enabled(settings(false));
    assert!(full.as_ref().is_left());
    assert_eq!(full.unwrap_inner_left().dark, "d");
    let bare: Section<gtk::_Config> = Section::bare(Disabled::new(true));
    assert!(bare.as_ref().is_right());
    assert!(bare.unwrap_inner_right().disabled());
    assert!(thcon::section::peek::<gtk::_Config>(&None).is_none());
    assert!(thcon::section::peek(&Some(full)).unwrap().is_left());
}

#[test]
fn config_error_names_the_application() {
    assert_eq!(
        ConfigError::RequiresManualConfig("konsole").message(),
        "konsole requires manual configuration"
    );
}

#[test]
fn operation_has_a_verb() {
    assert_eq!(Operation::Darken.name(), "darken");
    assert_eq!(Operation::Lighten.name(), "lighten");
}
