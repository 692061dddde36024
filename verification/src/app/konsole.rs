//! Switches the profile of Konsole.
//!
//! Every running Konsole is a service on the session's message bus, with
//! one object for each session and one for each window.  A switch gives
//! every session the new profile, and makes that profile the default of
//! the first Konsole, so that new sessions start with it.  There are no
//! built-in profiles to fall back on, so the section has to name both.

use vstd::prelude::*;

use crate::config::Config as ThconConfig;
use crate::disableable::{AppConfig, Disableable};
use crate::introspect::{
    child_names, child_names_of, last_child_name, last_child_of, malformed, xml_events, XmlError,
};
use crate::operation::Operation;
use crate::plan::{glue, wrap, BusArgs, BusArgsView, BusCall, BusCallView, Plan, PlanView};
use crate::section::{peek, spec_peek, Section};
use crate::text::starts_with;
use crate::themeable::{ConfigError, ConfigState, Themeable};

verus! {

/// How the name of every Konsole on the bus begins.
pub const SERVICE_PREFIX: &'static str = "org.kde.konsole-";

/// The interface through which an object describes itself.
pub const INTROSPECTABLE: &'static str = "org.freedesktop.DBus.Introspectable";

/// The `konsole` section.
#[derive(Debug)]
pub struct _Config {
    /// The profile to use in light mode.
    pub light: String,
    /// The profile to use in dark mode.
    pub dark: String,
    /// Whether Konsole is left alone.
    pub disabled: bool,
}

impl _Config {
    /// The profile that the operation selects.
    pub open spec fn theme(&self, operation: Operation) -> Seq<char> {
        match operation {
            Operation::Darken => self.dark@,
            Operation::Lighten => self.light@,
        }
    }
}

impl Disableable for _Config {
    open spec fn is_disabled(&self) -> bool {
        self.disabled
    }

    fn disabled(&self) -> (b: bool) {
        self.disabled
    }
}

impl AppConfig for _Config {

}

/// What the configuration file holds for Konsole.
pub type Config = Section<_Config>;

/// A Konsole and the sessions that it runs.
#[derive(Debug, Clone, PartialEq, Eq)]
pub struct Service {
    /// The Konsole's name on the bus.
    pub name: String,
    /// The names of its sessions.
    pub sessions: Vec<String>,
}

impl View for Service {
    type V = (Seq<char>, Seq<Seq<char>>);

    open spec fn view(&self) -> (Seq<char>, Seq<Seq<char>>) {
        (self.name@, self.sessions.deep_view())
    }
}

/// The models of a list of services.
pub open spec fn services_view(services: Seq<Service>) -> Seq<(Seq<char>, Seq<Seq<char>>)> {
    Seq::new(services.len(), |i: int| services[i]@)
}

/// The KDE terminal.
#[derive(Debug)]
pub struct Konsole {}

impl Konsole {
    /// Whether a name on the bus is that of a Konsole.
    pub open spec fn is_konsole(name: Seq<char>) -> bool {
        SERVICE_PREFIX@.is_prefix_of(name)
    }

    /// The call that asks an object of a service to describe itself.
    pub open spec fn describe(
        service_id: Seq<char>,
        path: Seq<char>,
        failure: Seq<char>,
    ) -> BusCallView {
        BusCallView {
            destination: service_id,
            path,
            interface: INTROSPECTABLE@,
            member: "Introspect"@,
            args: BusArgsView::Empty,
            failure,
        }
    }

    /// The call that gives a session a profile.
    pub open spec fn profile_call(
        service_id: Seq<char>,
        session_id: Seq<char>,
        profile_name: Seq<char>,
    ) -> BusCallView {
        BusCallView {
            destination: service_id,
            path: "/Sessions/"@ + session_id,
            interface: "org.kde.konsole.Session"@,
            member: "setProfile"@,
            args: BusArgsView::Text(profile_name),
            failure: Seq::empty(),
        }
    }

    /// The call that makes a profile the default, sent to a window.
    pub open spec fn default_call(
        service_id: Seq<char>,
        window_id: Seq<char>,
        profile_name: Seq<char>,
    ) -> BusCallView {
        BusCallView {
            destination: service_id,
            path: "/Windows/"@ + window_id,
            interface: "org.kde.konsole.Window"@,
            member: "setDefaultProfile"@,
            args: BusArgsView::Text(profile_name),
            failure: "asdfasdf"@,
        }
    }

    /// The calls that give each of a service's sessions a profile.
    pub open spec fn calls_of(service: (Seq<char>, Seq<Seq<char>>), profile_name: Seq<char>) -> Seq<
        BusCallView,
    > {
        Seq::new(
            service.1.len(),
            |i: int| Self::profile_call(service.0, service.1[i], profile_name),
        )
    }

    /// The calls for all sessions of all services, service by service.
    pub open spec fn all_calls(
        services: Seq<(Seq<char>, Seq<Seq<char>>)>,
        profile_name: Seq<char>,
    ) -> Seq<BusCallView>
        decreases services.len(),
    {
        if services.len() == 0 {
            Seq::empty()
        } else {
            Self::all_calls(services.drop_last(), profile_name) + Self::calls_of(
                services.last(),
                profile_name,
            )
        }
    }

    /// The call that asks the bus for the names of all services.
    pub fn list_names(&self) -> (call: BusCall)
        ensures
            call@ == (BusCallView {
                destination: "org.freedesktop.DBus"@,
                path: "/"@,
                interface: "org.freedesktop.DBus"@,
                member: "ListNames"@,
                args: BusArgsView::Empty,
                failure: "Unable to retrieve konsole windows from DBus"@,
            }),
    {
        BusCall {
            destination: String::from_str("org.freedesktop.DBus"),
            path: String::from_str("/"),
            interface: String::from_str("org.freedesktop.DBus"),
            member: String::from_str("ListNames"),
            args: BusArgs::Empty,
            failure: String::from_str("Unable to retrieve konsole windows from DBus"),
        }
    }

    /// Picks the Konsoles out of the names on the bus, in the same order.
    pub fn get_services(&self, names: Vec<String>) -> (konsoles: Vec<String>)
        ensures
            konsoles.deep_view() == names.deep_view().filter(|name| Self::is_konsole(name)),
    {
        let ghost is_konsole = |name: Seq<char>| Self::is_konsole(name);
        let mut konsoles: Vec<String> = Vec::new();
        let mut i: usize = 0;
        while i < names.len()
            invariant
                i <= names.len(),
                is_konsole == |name: Seq<char>| Self::is_konsole(name),
                konsoles.deep_view() == names.deep_view().take(i as int).filter(is_konsole),
            decreases names.len() - i,
        {
            proof {
                let upto = names.deep_view().take(i + 1);
                assert(upto.drop_last() =~= names.deep_view().take(i as int));
                assert(upto.last() == names[i as int]@);
                reveal(Seq::filter);
            }
            let ghost before = konsoles.deep_view();
            if starts_with(names[i].as_str(), SERVICE_PREFIX) {
                konsoles.push(names[i].clone());
                proof {
                    assert(konsoles.deep_view() =~= before.push(names[i as int]@));
                }
            }
            i = i + 1;
        }
        proof {
            assert(names.deep_view().take(names.len() as int) =~= names.deep_view());
        }
        konsoles
    }

    /// The call that asks a Konsole for its sessions.
    pub fn sessions_call(&self, service_id: &str) -> (call: BusCall)
        ensures
            call@ == Self::describe(
                service_id@,
                "/Sessions"@,
                "Unable to get konsole session ids for DBus service '"@ + service_id@ + "'"@,
            ),
    {
        BusCall {
            destination: String::from_str(service_id),
            path: String::from_str("/Sessions"),
            interface: String::from_str(INTROSPECTABLE),
            member: String::from_str("Introspect"),
            args: BusArgs::Empty,
            failure: wrap("Unable to get konsole session ids for DBus service '", service_id, "'"),
        }
    }

    /// Reads the names of a Konsole's sessions out of its description.
    /// Fails exactly when the description is not well-formed.
    pub fn get_session_ids(&self, description: &str) -> (found: Result<Vec<String>, XmlError>)
        ensures
            found is Err <==> malformed(xml_events(description@)),
            found matches Ok(names) ==> names.deep_view() == child_names(
                xml_events(description@),
            ),
    {
        child_names_of(description)
    }

    /// The call that gives a session a profile.
    pub fn set_profile_name(&self, service_id: &str, session_id: &str, profile_name: &str) -> (call:
        BusCall)
        ensures
            call@ == Self::profile_call(service_id@, session_id@, profile_name@),
    {
        BusCall {
            destination: String::from_str(service_id),
            path: glue("/Sessions/", session_id),
            interface: String::from_str("org.kde.konsole.Session"),
            member: String::from_str("setProfile"),
            args: BusArgs::Text(String::from_str(profile_name)),
            failure: String::new(),
        }
    }

    /// The calls that give every session of every service a profile.
    pub fn session_calls(&self, services: &Vec<Service>, profile_name: &str) -> (calls: Vec<
        BusCall,
    >)
        ensures
            crate::plan::calls_view(calls@) == Self::all_calls(
                services_view(services@),
                profile_name@,
            ),
    {
        let mut calls: Vec<BusCall> = Vec::new();
        let mut i: usize = 0;
        while i < services.len()
            invariant
                i <= services.len(),
                crate::plan::calls_view(calls@) == Self::all_calls(
                    services_view(services@).take(i as int),
                    profile_name@,
                ),
            decreases services.len() - i,
        {
            let service = &services[i];
            let ghost done = crate::plan::calls_view(calls@);
            proof {
                let upto = services_view(services@).take(i + 1);
                assert(upto.drop_last() =~= services_view(services@).take(i as int));
                assert(upto.last() == service@);
            }
            let mut j: usize = 0;
            while j < service.sessions.len()
                invariant
                    j <= service.sessions.len(),
                    crate::plan::calls_view(calls@) == done + Self::calls_of(
                        service@,
                        profile_name@,
                    ).take(j as int),
                decreases service.sessions.len() - j,
            {
                let ghost so_far = crate::plan::calls_view(calls@);
                let call = self.set_profile_name(
                    service.name.as_str(),
                    service.sessions[j].as_str(),
                    profile_name,
                );
                calls.push(call);
                proof {
                    let wanted = Self::calls_of(service@, profile_name@);
                    assert(service.sessions.deep_view()[j as int] == service.sessions[j as int]@);
                    assert(crate::plan::calls_view(calls@) =~= so_far.push(wanted[j as int]));
                    assert(wanted.take(j + 1) =~= wanted.take(j as int).push(wanted[j as int]));
                    assert(done + wanted.take(j + 1) =~= (done + wanted.take(j as int)).push(
                        wanted[j as int],
                    ));
                }
                j = j + 1;
            }
            proof {
                let wanted = Self::calls_of(service@, profile_name@);
                assert(wanted.take(service.sessions.len() as int) =~= wanted);
            }
            i = i + 1;
        }
        proof {
            assert(services_view(services@).take(services.len() as int) =~= services_view(
                services@,
            ));
        }
        calls
    }

    /// The call that asks a Konsole for its windows.
    pub fn windows_call(&self, service_id: &str) -> (call: BusCall)
        ensures
            call@ == Self::describe(
                service_id@,
                "/Windows"@,
                "Unable to retreive window for DBus service '"@ + service_id@,
            ),
    {
        BusCall {
            destination: String::from_str(service_id),
            path: String::from_str("/Windows"),
            interface: String::from_str(INTROSPECTABLE),
            member: String::from_str("Introspect"),
            args: BusArgs::Empty,
            failure: glue("Unable to retreive window for DBus service '", service_id),
        }
    }

    /// The call that makes a profile the default of a Konsole, sent to the
    /// last window that its description lists; none where that window has
    /// no name or there is no window.  Fails exactly when the description
    /// is not well-formed.
    pub fn set_default_profile(
        &self,
        service_id: &str,
        description: &str,
        profile_name: &str,
    ) -> (call: Result<Option<BusCall>, XmlError>)
        ensures
            call is Err <==> malformed(xml_events(description@)),
            call matches Ok(found) ==> crate::plan::call_view(found) == (match last_child_name(
                xml_events(description@),
            ) {
                Some(window_id) => Some(
                    Self::default_call(service_id@, window_id, profile_name@),
                ),
                None => None,
            }),
    {
        match last_child_of(description) {
            Err(error) => Err(error),
            Ok(None) => Ok(None),
            Ok(Some(window_id)) => Ok(
                Some(
                    BusCall {
                        destination: String::from_str(service_id),
                        path: glue("/Windows/", window_id.as_str()),
                        interface: String::from_str("org.kde.konsole.Window"),
                        member: String::from_str("setDefaultProfile"),
                        args: BusArgs::Text(String::from_str(profile_name)),
                        failure: String::from_str("asdfasdf"),
                    },
                ),
            ),
        }
    }
}

impl Themeable for Konsole {
    open spec fn state_of(&self, config: &ThconConfig) -> ConfigState {
        ConfigState::manual(spec_peek(&config.konsole))
    }

    open spec fn ready(&self, config: &ThconConfig, operation: Operation) -> bool {
        self.state_of(config) != ConfigState::Default
    }

    open spec fn plan_of(&self, config: &ThconConfig, operation: Operation) -> Result<
        PlanView,
        Seq<char>,
    > {
        match self.state_of(config) {
            ConfigState::NoDefault => Err(
                ConfigError::RequiresManualConfig("konsole").spec_message(),
            ),
            ConfigState::Disabled => Ok(PlanView::Nothing),
            _ => Ok(
                PlanView::Konsole { profile: config.konsole->0.settings().theme(operation) },
            ),
        }
    }

    fn config_state(&self, config: &ThconConfig) -> (state: ConfigState) {
        ConfigState::with_manual_config(peek(&config.konsole))
    }

    fn can_switch(&self, config: &ThconConfig, operation: &Operation) -> (ready: bool) {
        match self.config_state(config) {
            ConfigState::Default => false,
            _ => true,
        }
    }

    fn switch(&self, config: &ThconConfig, operation: &Operation) -> (outcome: Result<
        Plan,
        ConfigError,
    >) {
        let settings = match self.config_state(config) {
            ConfigState::NoDefault => {
                return Err(ConfigError::RequiresManualConfig("konsole"))
            },
            ConfigState::Default => unreached(),
            ConfigState::Disabled => return Ok(Plan::Nothing),
            ConfigState::Enabled => match &config.konsole {
                Some(section) => section.unwrap_inner_left(),
                None => unreached(),
            },
        };
        let theme = match operation {
            Operation::Darken => &settings.dark,
            Operation::Lighten => &settings.light,
        };
        Ok(Plan::Konsole { profile: theme.clone() })
    }
}

} // verus!
