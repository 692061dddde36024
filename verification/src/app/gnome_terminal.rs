//! Switches the profile of GNOME Terminal.
//!
//! GNOME Terminal has one object on the session's message bus for each
//! window.  A switch gives every window the new profile, and stores it as
//! the default so that new windows start with it.  Profiles are named by
//! their identifiers.  There are no built-in profiles to fall back on, so
//! the section has to name both.

use vstd::prelude::*;

use crate::config::Config as ThconConfig;
use crate::disableable::{AppConfig, Disableable};
use crate::introspect::{child_names, child_names_of, malformed, xml_events, XmlError};
use crate::operation::Operation;
use crate::plan::{
    calls_view, wrap, BusArgs, BusArgsView, BusCall, BusCallView, Plan, PlanView, Setting,
    SettingView,
};
use crate::section::{peek, spec_peek, Section};
use crate::themeable::{ConfigError, ConfigState, Themeable};

verus! {

/// GNOME Terminal's name on the bus.
pub const SERVICE: &'static str = "org.gnome.Terminal";

/// The path below which the windows' objects are found.
pub const WINDOWS: &'static str = "/org/gnome/Terminal/window";

/// The `gnome-terminal` section.
#[derive(Debug)]
pub struct _Config {
    /// The profile to use in light mode.
    pub light: String,
    /// The profile to use in dark mode.
    pub dark: String,
    /// Whether GNOME Terminal is left alone.
    pub disabled: bool,
}

impl _Config {
    /// The profile that the operation selects.
    pub open spec fn theme(&self, operation: Operation) -> Seq<char> {
        match operation {
            Operation::Darken => self.dark@,
            Operation::Lighten => self.light@,
        }
    }
}

impl Disableable for _Config {
    open spec fn is_disabled(&self) -> bool {
        self.disabled
    }

    fn disabled(&self) -> (b: bool) {
        self.disabled
    }
}

impl AppConfig for _Config {

}

/// What the configuration file holds for GNOME Terminal.
pub type Config = Section<_Config>;

/// The GNOME terminal.
#[derive(Debug)]
pub struct GnomeTerminal {}

impl GnomeTerminal {
    /// The call that gives a window a profile.
    pub open spec fn profile_call(window_id: Seq<char>, profile_id: Seq<char>) -> BusCallView {
        BusCallView {
            destination: SERVICE@,
            path: WINDOWS@ + "/"@ + window_id,
            interface: "org.gtk.Actions"@,
            member: "SetState"@,
            args: BusArgsView::State { action: "profile"@, state: profile_id },
            failure: "Unable to apply profile '"@ + profile_id
                + "' for gnome-terminal window '"@ + window_id + "'"@,
        }
    }

    /// The calls that give each window a profile.
    pub open spec fn all_calls(windows: Seq<Seq<char>>, profile_id: Seq<char>) -> Seq<BusCallView> {
        Seq::new(windows.len(), |i: int| Self::profile_call(windows[i], profile_id))
    }

    /// The setting that makes a profile the default.
    pub open spec fn default_setting(profile_id: Seq<char>) -> SettingView {
        SettingView {
            schema: "org.gnome.Terminal.ProfilesList"@,
            key: "default"@,
            value: profile_id,
            failure: "Unable to set default gnome-terminal profile '"@ + profile_id + "'"@,
        }
    }

    /// The call that asks GNOME Terminal for its windows.
    pub fn windows_call(&self) -> (call: BusCall)
        ensures
            call@ == (BusCallView {
                destination: SERVICE@,
                path: WINDOWS@,
                interface: "org.freedesktop.DBus.Introspectable"@,
                member: "Introspect"@,
                args: BusArgsView::Empty,
                failure: "Unable to retrieve gnome-terminal windows from DBus"@,
            }),
    {
        BusCall {
            destination: String::from_str(SERVICE),
            path: String::from_str(WINDOWS),
            interface: String::from_str("org.freedesktop.DBus.Introspectable"),
            member: String::from_str("Introspect"),
            args: BusArgs::Empty,
            failure: String::from_str("Unable to retrieve gnome-terminal windows from DBus"),
        }
    }

    /// Reads the names of the windows out of GNOME Terminal's description.
    /// Fails exactly when the description is not well-formed.
    pub fn get_window_ids(&self, description: &str) -> (found: Result<Vec<String>, XmlError>)
        ensures
            found is Err <==> malformed(xml_events(description@)),
            found matches Ok(names) ==> names.deep_view() == child_names(
                xml_events(description@),
            ),
    {
        child_names_of(description)
    }

    /// The call that gives a window a profile.
    pub fn set_profile(&self, window_id: &str, profile_id: &str) -> (call: BusCall)
        ensures
            call@ == Self::profile_call(window_id@, profile_id@),
    {
        let mut failure = wrap(
            "Unable to apply profile '",
            profile_id,
            "' for gnome-terminal window '",
        );
        failure.append(window_id);
        failure.append("'");
        BusCall {
            destination: String::from_str(SERVICE),
            path: wrap(WINDOWS, "/", window_id),
            interface: String::from_str("org.gtk.Actions"),
            member: String::from_str("SetState"),
            args: BusArgs::State {
                action: String::from_str("profile"),
                state: String::from_str(profile_id),
            },
            failure,
        }
    }

    /// The calls that give every window a profile, in the order of the
    /// windows.
    pub fn profile_calls(&self, windows: &Vec<String>, profile_id: &str) -> (calls: Vec<BusCall>)
        ensures
            calls_view(calls@) == Self::all_calls(windows.deep_view(), profile_id@),
    {
        let mut calls: Vec<BusCall> = Vec::new();
        let mut i: usize = 0;
        while i < windows.len()
            invariant
                i <= windows.len(),
                calls.len() == i,
                forall|k: int|
                    0 <= k < i ==> calls[k]@ == Self::profile_call(windows[k]@, profile_id@),
            decreases windows.len() - i,
        {
            calls.push(self.set_profile(windows[i].as_str(), profile_id));
            i = i + 1;
        }
        proof {
            assert(calls_view(calls@) =~= Self::all_calls(windows.deep_view(), profile_id@));
        }
        calls
    }

    /// The setting that makes a profile the default.
    pub fn default_profile(&self, profile_id: &str) -> (setting: Setting)
        ensures
            setting@ == Self::default_setting(profile_id@),
    {
        Setting {
            schema: String::from_str("org.gnome.Terminal.ProfilesList"),
            key: String::from_str("default"),
            value: String::from_str(profile_id),
            failure: wrap("Unable to set default gnome-terminal profile '", profile_id, "'"),
        }
    }
}

impl Themeable for GnomeTerminal {
    open spec fn state_of(&self, config: &ThconConfig) -> ConfigState {
        ConfigState::manual(spec_peek(&config.gnome_terminal))
    }

    open spec fn ready(&self, config: &ThconConfig, operation: Operation) -> bool {
        self.state_of(config) != ConfigState::Default
    }

    open spec fn plan_of(&self, config: &ThconConfig, operation: Operation) -> Result<
        PlanView,
        Seq<char>,
    > {
        match self.state_of(config) {
            ConfigState::NoDefault => Err(
                ConfigError::RequiresManualConfig("gnome_terminal").spec_message(),
            ),
            ConfigState::Disabled => Ok(PlanView::Nothing),
            _ => Ok(
                PlanView::GnomeTerminal {
                    profile: config.gnome_terminal->0.settings().theme(operation),
                },
            ),
        }
    }

    fn config_state(&self, config: &ThconConfig) -> (state: ConfigState) {
        ConfigState::with_manual_config(peek(&config.gnome_terminal))
    }

    fn can_switch(&self, config: &ThconConfig, operation: &Operation) -> (ready: bool) {
        match self.config_state(config) {
            ConfigState::Default => false,
            _ => true,
        }
    }

    fn switch(&self, config: &ThconConfig, operation: &Operation) -> (outcome: Result<
        Plan,
        ConfigError,
    >) {
        let settings = match self.config_state(config) {
            ConfigState::NoDefault => {
                return Err(ConfigError::RequiresManualConfig("gnome_terminal"))
            },
            ConfigState::Default => unreached(),
            ConfigState::Disabled => return Ok(Plan::Nothing),
            ConfigState::Enabled => match &config.gnome_terminal {
                Some(section) => section.unwrap_inner_left(),
                None => unreached(),
            },
        };
        let theme = match operation {
            Operation::Darken => &settings.dark,
            Operation::Lighten => &settings.light,
        };
        Ok(Plan::GnomeTerminal { profile: theme.clone() })
    }
}

} // verus!
