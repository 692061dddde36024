use thcon::app::gnome_terminal::{self, GnomeTerminal};
use thcon::app::konsole::{self, Konsole, Service};
use thcon::introspect::{child_names_of, children, last_child, last_child_of, names_of, XmlEvent};
use thcon::plan::{BusArgs, BusCall, Plan, Setting};
use thcon::{Config, Operation, Section, Themeable};

const SESSIONS: &str = r#"<!DOCTYPE node PUBLIC "-//freedesktop//DTD D-BUS Object Introspection 1.0//EN"
"http://www.freedesktop.org/standards/dbus/1.0/introspect.dtd">
<node>
  <interface name="org.freedesktop.DBus.Introspectable">
    <method name="Introspect">
      <arg name="xml_data" type="s" direction="out"/>
    </method>
  </interface>
  <node name="1"/>
  <node name="2">
    <node name="inner"/>
  </node>
  <!-- a comment -->
  <node name="7"/>
</node>"#;

fn open(name: &str, attributes: Vec<(&str, &str)>) -> Result<XmlEvent, xml::reader::Error> {
    Ok(XmlEvent::Open {
        name: name.to_string(),
        attributes: attributes.iter().map(|(k, v)| (k.to_string(), v.to_string())).collect(),
    })
}

#[test]
fn children_are_the_nodes_below_the_root() {
    assert_eq!(child_names_of(SESSIONS).unwrap(), vec!["1", "2", "7"]);
}

#[test]
fn last_child_is_the_last_node_below_the_root() {
    assert_eq!(last_child_of(SESSIONS).unwrap(), Some("7".to_string()));
}

#[test]
fn description_without_children() {
    assert_eq!(child_names_of("<node/>").unwrap(), Vec::<String>::new());
    assert_eq!(last_child_of("<node/>").unwrap(), None);
    assert_eq!(child_names_of("<node><other name=\"1\"/></node>").unwrap(), Vec::<String>::new());
}

#[test]
fn malformed_description_fails() {
    assert!(child_names_of("<node><node name=\"1\">").is_err());
    assert!(last_child_of("<node><node name=\"1\">").is_err());
    assert!(child_names_of("no xml at all").is_err());
    assert!(child_names_of("").is_err());
}

#[test]
fn only_attributes_called_name_count() {
    assert_eq!(
        child_names_of("<node><node id=\"3\" name=\"a\"/><node id=\"4\"/></node>").unwrap(),
        vec!["a"]
    );
    assert_eq!(
        names_of(&vec![
            ("id".to_string(), "1".to_string()),
            ("name".to_string(), "x".to_string()),
            ("name".to_string(), "y".to_string()),
        ]),
        vec!["x", "y"]
    );
}

#[test]
fn last_child_without_name_gives_none() {
    assert_eq!(
        last_child_of("<node><node name=\"a\"/><node id=\"4\"/></node>").unwrap(),
        None
    );
}

#[test]
fn walk_counts_depth_by_events() {
    let steps = vec![
        Ok(XmlEvent::Other),
        open("node", vec![("name", "root")]),
        open("node", vec![("name", "a")]),
        open("node", vec![("name", "deep")]),
        Ok(XmlEvent::Close),
        Ok(XmlEvent::Close),
        Ok(XmlEvent::Other),
        open("node", vec![("x", "y"), ("name", "b"), ("name", "c")]),
        Ok(XmlEvent::Close),
        Ok(XmlEvent::Close),
    ];
    assert_eq!(children(steps.clone()).unwrap(), vec!["a", "b", "c"]);
    assert_eq!(last_child(steps).unwrap(), Some("b".to_string()));
}

#[test]
fn walk_of_nothing_finds_nothing() {
    assert_eq!(children(vec![]).unwrap(), Vec::<String>::new());
    assert_eq!(last_child(vec![]).unwrap(), None);
}

#[test]
fn konsole_picks_its_services() {
    let names = vec![
        "org.freedesktop.DBus".to_string(),
        "org.kde.konsole-4711".to_string(),
        ":1.42".to_string(),
        "org.kde.konsole".to_string(),
        "org.kde.konsole-12".to_string(),
        "x.org.kde.konsole-1".to_string(),
    ];
    assert_eq!(
        Konsole {}.get_services(names),
        vec!["org.kde.konsole-4711", "org.kde.konsole-12"]
    );
    assert_eq!(Konsole {}.get_services(vec![]), Vec::<String>::new());
    assert_eq!(konsole::SERVICE_PREFIX, "org.kde.konsole-");
}

#[test]
fn konsole_asks_the_bus_for_names() {
    assert_eq!(
        Konsole {}.list_names(),
        BusCall {
            destination: "org.freedesktop.DBus".to_string(),
            path: "/".to_string(),
            interface: "org.freedesktop.DBus".to_string(),
            member: "ListNames".to_string(),
            args: BusArgs::Empty,
            failure: "Unable to retrieve konsole windows from DBus".to_string(),
        }
    );
}

#[test]
fn konsole_asks_a_service_for_sessions_and_windows() {
    assert_eq!(
        Konsole {}.sessions_call("org.kde.konsole-1"),
        BusCall {
            destination: "org.kde.konsole-1".to_string(),
            path: "/Sessions".to_string(),
            interface: "org.freedesktop.DBus.Introspectable".to_string(),
            member: "Introspect".to_string(),
            args: BusArgs::Empty,
            failure: "Unable to get konsole session ids for DBus service 'org.kde.konsole-1'"
                .to_string(),
        }
    );
    assert_eq!(
        Konsole {}.windows_call("org.kde.konsole-1"),
        BusCall {
            destination: "org.kde.konsole-1".to_string(),
            path: "/Windows".to_string(),
            interface: "org.freedesktop.DBus.Introspectable".to_string(),
            member: "Introspect".to_string(),
            args: BusArgs::Empty,
            failure: "Unable to retreive window for DBus service 'org.kde.konsole-1".to_string(),
        }
    );
}

#[test]
fn konsole_reads_session_ids() {
    assert_eq!(Konsole {}.get_session_ids(SESSIONS).unwrap(), vec!["1", "2", "7"]);
    assert!(Konsole {}.get_session_ids("<node>").is_err());
}

#[test]
fn konsole_sets_the_profile_of_a_session() {
    assert_eq!(
        Konsole {}.set_profile_name("org.kde.konsole-1", "3", "Dark"),
        BusCall {
            destination: "org.kde.konsole-1".to_string(),
            path: "/Sessions/3".to_string(),
            interface: "org.kde.konsole.Session".to_string(),
            member: "setProfile".to_string(),
            args: BusArgs::Text("Dark".to_string()),
            failure: String::new(),
        }
    );
}

#[test]
fn konsole_calls_every_session_of_every_service() {
    let services = vec![
        Service { name: "s1".to_string(), sessions: vec!["1".to_string(), "2".to_string()] },
        Service { name: "s2".to_string(), sessions: vec![] },
        Service { name: "s3".to_string(), sessions: vec!["9".to_string()] },
    ];
    let calls = Konsole {}.session_calls(&services, "Light");
    let seen: Vec<(String, String)> =
        calls.iter().map(|c| (c.destination.clone(), c.path.clone())).collect();
    assert_eq!(
        seen,
        vec![
            ("s1".to_string(), "/Sessions/1".to_string()),
            ("s1".to_string(), "/Sessions/2".to_string()),
            ("s3".to_string(), "/Sessions/9".to_string()),
        ]
    );
    assert!(calls.iter().all(|c| c.args == BusArgs::Text("Light".to_string())));
    assert_eq!(calls[0], Konsole {}.set_profile_name("s1", "1", "Light"));
    assert_eq!(Konsole {}.session_calls(&vec![], "Light"), vec![]);
}

#[test]
fn konsole_sets_the_default_on_the_last_window() {
    assert_eq!(
        Konsole {}.set_default_profile("org.kde.konsole-1", SESSIONS, "Dark").unwrap(),
        Some(BusCall {
            destination: "org.kde.konsole-1".to_string(),
            path: "/Windows/7".to_string(),
            interface: "org.kde.konsole.Window".to_string(),
            member: "setDefaultProfile".to_string(),
            args: BusArgs::Text("Dark".to_string()),
            failure: "asdfasdf".to_string(),
        })
    );
    assert_eq!(Konsole {}.set_default_profile("s", "<node/>", "Dark").unwrap(), None);
    assert!(Konsole {}.set_default_profile("s", "<node>", "Dark").is_err());
}

#[test]
fn konsole_plans_with_the_profile_of_the_mode() {
    let mut config = Config::default();
    assert_eq!(
        Konsole {}.switch(&config, &Operation::Darken).map_err(|e| e.message()),
        Err("konsole requires manual configuration".to_string())
    );
    config.konsole = Some(Section::enabled(konsole::_Config {
        light: "Day".to_string(),
        dark: "Night".to_string(),
        disabled: false,
    }));
    assert_eq!(
        Konsole {}.switch(&config, &Operation::Darken),
        Ok(Plan::Konsole { profile: "Night".to_string() })
    );
    assert_eq!(
        Konsole {}.switch(&config, &Operation::Lighten),
        Ok(Plan::Konsole { profile: "Day".to_string() })
    );
}

#[test]
fn gnome_terminal_asks_for_its_windows() {
    assert_eq!(
        GnomeTerminal {}.windows_call(),
        BusCall {
            destination: "org.gnome.Terminal".to_string(),
            path: "/org/gnome/Terminal/window".to_string(),
            interface: "org.freedesktop.DBus.Introspectable".to_string(),
            member: "Introspect".to_string(),
            args: BusArgs::Empty,
            failure: "Unable to retrieve gnome-terminal windows from DBus".to_string(),
        }
    );
    assert_eq!(GnomeTerminal {}.get_window_ids(SESSIONS).unwrap(), vec!["1", "2", "7"]);
    assert!(GnomeTerminal {}.get_window_ids("<node").is_err());
}

#[test]
fn gnome_terminal_sets_the_profile_of_a_window() {
    assert_eq!(
        GnomeTerminal {}.set_profile("4", "b1dcc9dd"),
        BusCall {
            destination: "org.gnome.Terminal".to_string(),
            path: "/org/gnome/Terminal/window/4".to_string(),
            interface: "org.gtk.Actions".to_string(),
            member: "SetState".to_string(),
            args: BusArgs::State { action: "profile".to_string(), state: "b1dcc9dd".to_string() },
            failure: "Unable to apply profile 'b1dcc9dd' for gnome-terminal window '4'"
                .to_string(),
        }
    );
    let calls = GnomeTerminal {}.profile_calls(&vec!["1".to_string(), "2".to_string()], "p");
    assert_eq!(
        calls,
        vec![GnomeTerminal {}.set_profile("1", "p"), GnomeTerminal {}.set_profile("2", "p")]
    );
    assert_eq!(GnomeTerminal {}.profile_calls(&vec![], "p"), vec![]);
}

#[test]
fn gnome_terminal_stores_the_default_profile() {
    assert_eq!(
        GnomeTerminal {}.default_profile("b1dcc9dd"),
        Setting {
            schema: "org.gnome.Terminal.ProfilesList".to_string(),
            key: "default".to_string(),
            value: "b1dcc9dd".to_string(),
            failure: "Unable to set default gnome-terminal profile 'b1dcc9dd'".to_string(),
        }
    );
}

#[test]
fn gnome_terminal_plans_with_the_profile_of_the_mode() {
    let mut config = Config::default();
    assert_eq!(
        GnomeTerminal {}.switch(&config, &Operation::Darken).map_err(|e| e.message()),
        Err("gnome_terminal requires manual configuration".to_string())
    );
    config.gnome_terminal = Some(Section::enabled(gnome_terminal::_Config {
        light: "l-id".to_string(),
        dark: "d-id".to_string(),
        disabled: false,
    }));
    assert_eq!(
        GnomeTerminal {}.switch(&config, &Operation::Lighten),
        Ok(Plan::GnomeTerminal { profile: "l-id".to_string() })
    );
}
