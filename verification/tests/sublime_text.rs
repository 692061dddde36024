use thcon::app::sublime_text::{
    preferences_path, set_key, update_preferences, ConfigSection, SublimeText, _Config,
};
use thcon::plan::Plan;
use thcon::{Config, Disabled, Operation, Platform, Section, Themeable};

fn text(bytes: Option<Vec<u8>>) -> Option<String> {
    bytes.map(|b| String::from_utf8(b).unwrap())
}

#[test]
fn keys_are_set_and_the_file_is_indented_by_four() {
    let before = "{\"font_size\": 11, \"theme\": \"Old.sublime-theme\"}";
    assert_eq!(
        text(update_preferences(before, Some("Monokai"), Some("Default.sublime-theme"))),
        Some(
            "{\n    \"color_scheme\": \"Monokai\",\n    \"font_size\": 11,\n    \"theme\": \"Default.sublime-theme\"\n}"
                .to_string()
        )
    );
}

#[test]
fn nested_values_are_indented_by_level() {
    assert_eq!(
        text(update_preferences("{\"a\": {\"b\": [1]}}", None, None)),
        Some("{\n    \"a\": {\n        \"b\": [\n            1\n        ]\n    }\n}".to_string())
    );
}

#[test]
fn anything_but_json_counts_as_empty() {
    assert_eq!(
        text(update_preferences("// not json", Some("A"), None)),
        Some("{\n    \"color_scheme\": \"A\"\n}".to_string())
    );
    assert_eq!(
        text(update_preferences("", None, Some("T"))),
        Some("{\n    \"theme\": \"T\"\n}".to_string())
    );
    assert_eq!(text(update_preferences("", None, None)), Some("null".to_string()));
}

#[test]
fn keys_cannot_be_stored_in_other_values() {
    assert_eq!(update_preferences("[1, 2]", Some("A"), None), None);
    assert_eq!(update_preferences("3", None, Some("T")), None);
    assert_eq!(update_preferences("\"text\"", Some("A"), Some("T")), None);
    assert_eq!(
        text(update_preferences("[1, 2]", None, None)),
        Some("[\n    1,\n    2\n]".to_string())
    );
}

#[test]
fn set_key_reports_whether_it_stored() {
    let mut value = serde_json::Value::Null;
    assert!(set_key(&mut value, "a", Some("b")));
    assert_eq!(value.to_string(), "{\"a\":\"b\"}");
    assert!(set_key(&mut value, "a", Some("c")));
    assert_eq!(value.to_string(), "{\"a\":\"c\"}");
    assert!(set_key(&mut value, "z", None));
    assert_eq!(value.to_string(), "{\"a\":\"c\"}");
    let mut number = serde_json::Value::from(3);
    assert!(!set_key(&mut number, "a", Some("b")));
    assert_eq!(number, serde_json::Value::from(3));
    assert!(set_key(&mut number, "a", None));
}

#[test]
fn usual_path_depends_on_the_platform() {
    assert_eq!(
        preferences_path("/c", Platform::Dbus),
        vec!["/c", "sublime-text-3", "Packages", "User", "Preferences.sublime-settings"]
    );
    assert_eq!(
        preferences_path("/c", Platform::Other),
        vec!["/c", "sublime-text-3", "Packages", "User", "Preferences.sublime-settings"]
    );
    assert_eq!(
        preferences_path("/c", Platform::Mac),
        vec!["/c", "Sublime Text 3", "Packages", "User", "Preferences.sublime-settings"]
    );
}

#[test]
fn sublime_text_defaults() {
    let config = Config::default();
    assert_eq!(
        SublimeText.switch(&config, &Operation::Darken),
        Ok(Plan::SublimeText {
            color_scheme: Some(
                "Packages/Color Scheme - Default/Monokai.sublime-color-scheme".to_string()
            ),
            theme: Some("Default.sublime-theme".to_string()),
            preferences: None,
        })
    );
    assert_eq!(
        SublimeText.switch(&config, &Operation::Lighten),
        Ok(Plan::SublimeText {
            color_scheme: Some(
                "Packages/Color Scheme - Default/Celeste.sublime-color-scheme".to_string()
            ),
            theme: Some("Adaptive.sublime-theme".to_string()),
            preferences: None,
        })
    );
}

#[test]
fn sublime_text_uses_its_section() {
    let mut config = Config::default();
    config.sublime_text = Some(Section::enabled(_Config {
        light: ConfigSection { color_scheme: Some("L".to_string()), theme: None },
        dark: ConfigSection { color_scheme: None, theme: Some("D".to_string()) },
        preferences_file: Some("/p/Preferences.sublime-settings".to_string()),
        disabled: false,
    }));
    assert_eq!(
        SublimeText.switch(&config, &Operation::Lighten),
        Ok(Plan::SublimeText {
            color_scheme: Some("L".to_string()),
            theme: None,
            preferences: Some("/p/Preferences.sublime-settings".to_string()),
        })
    );
    assert_eq!(
        SublimeText.switch(&config, &Operation::Darken),
        Ok(Plan::SublimeText {
            color_scheme: None,
            theme: Some("D".to_string()),
            preferences: Some("/p/Preferences.sublime-settings".to_string()),
        })
    );
    config.sublime_text = Some(Section::bare(Disabled::new(true)));
    assert_eq!(SublimeText.switch(&config, &Operation::Darken), Ok(Plan::Nothing));
}
