use thcon::app::vscode::{replace_color_theme, VSCode, _Config};
use thcon::plan::Plan;
use thcon::{Config, Disabled, Operation, Section, Themeable};

#[test]
fn replace_color_trailing_comma() {
    let settings_json = r#"
    {
        "workbench.colorTheme": "Default Dark+", // thcon:replace-line
        "editor.minimap.enabled": false,
    }
    "#;
    let res = replace_color_theme(settings_json, "Default Light+");
    assert_eq!(
        res,
        r#"
    {
        "workbench.colorTheme": "Default Light+", // thcon:replace-line
        "editor.minimap.enabled": false,
    }
    "#
    );
}

#[test]
fn replace_color_no_trailing_comma() {
    let settings_json = r#"
    {
        "editor.minimap.enabled": false,
        "workbench.colorTheme"  :"Default Dark+"   // thcon:replace-line
    }
    "#;
    let res = replace_color_theme(settings_json, "Default Light+");
    assert_eq!(
        res,
        r#"
    {
        "editor.minimap.enabled": false,
        "workbench.colorTheme"  :"Default Light+"   // thcon:replace-line
    }
    "#
    );
}

#[test]
fn lines_are_joined_by_line_feeds() {
    assert_eq!(replace_color_theme("a\r\nb\nc", "x"), "a\nb\nc");
    assert_eq!(replace_color_theme("a\nb\n", "x"), "a\nb");
    assert_eq!(replace_color_theme("a\n\nb", "x"), "a\n\nb");
    assert_eq!(replace_color_theme("\n", "x"), "");
    assert_eq!(replace_color_theme("", "x"), "");
    assert_eq!(replace_color_theme("a\r", "x"), "a\r");
    assert_eq!(replace_color_theme("a\rb\r\n", "x"), "a\rb");
}

#[test]
fn text_after_the_marker_is_kept() {
    assert_eq!(
        replace_color_theme("\"workbench.colorTheme\": \"Old\" // thcon:replace-line, really", "New"),
        "\"workbench.colorTheme\": \"New\" // thcon:replace-line, really"
    );
}

#[test]
fn theme_is_taken_as_it_is() {
    assert_eq!(
        replace_color_theme("\"workbench.colorTheme\": \"Old\", // thcon:replace-line", "$1 \"q\""),
        "\"workbench.colorTheme\": \"$1 \"q\"\", // thcon:replace-line"
    );
}

#[test]
fn line_without_marker_or_with_other_start_stays() {
    assert_eq!(
        replace_color_theme("\"workbench.colorTheme\": \"Old\",", "New"),
        "\"workbench.colorTheme\": \"Old\","
    );
    assert_eq!(
        replace_color_theme("x \"workbench.colorTheme\": \"Old\", // thcon:replace-line", "New"),
        "x \"workbench.colorTheme\": \"Old\", // thcon:replace-line"
    );
}

#[test]
fn every_marked_line_gets_the_theme() {
    assert_eq!(
        replace_color_theme(
            "\"workbench.colorTheme\": \"A\", // thcon:replace-line\n  \"workbench.colorTheme\":\"B\"//thcon:replace-line",
            "C"
        ),
        "\"workbench.colorTheme\": \"C\", // thcon:replace-line\n  \"workbench.colorTheme\":\"C\"//thcon:replace-line"
    );
}

#[test]
fn vscode_defaults_and_section() {
    let mut config = Config::default();
    assert_eq!(
        VSCode.switch(&config, &Operation::Darken),
        Ok(Plan::VSCode { theme: "Default Dark+".to_string() })
    );
    assert_eq!(
        VSCode.switch(&config, &Operation::Lighten),
        Ok(Plan::VSCode { theme: "Default Light+".to_string() })
    );
    config.vscode = Some(Section::enabled(_Config {
        light: "Solarized Light".to_string(),
        dark: "Solarized Dark".to_string(),
        config: None,
        disabled: false,
    }));
    assert_eq!(
        VSCode.switch(&config, &Operation::Darken),
        Ok(Plan::VSCode { theme: "Solarized Dark".to_string() })
    );
    config.vscode = Some(Section::bare(Disabled::new(true)));
    assert_eq!(VSCode.switch(&config, &Operation::Darken), Ok(Plan::Nothing));
}

#[test]
fn settings_json_lies_below_the_configuration_directory() {
    assert_eq!(
        VSCode.settings_json_path("/home/me/.config"),
        vec!["/home/me/.config", "Code", "User", "settings.json"]
    );
}
