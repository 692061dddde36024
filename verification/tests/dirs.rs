use thcon::dirs::{config, data, temp};

#[test]
fn named_directory_wins_when_absolute() {
    assert_eq!(config(Some("/etc/xdg"), Some("/home/me")), Some(vec!["/etc/xdg".to_string()]));
    assert_eq!(data(Some("/var/data"), None), Some(vec!["/var/data".to_string()]));
}

#[test]
fn relative_or_missing_name_falls_back_to_home() {
    assert_eq!(
        config(Some("relative/dir"), Some("/home/me")),
        Some(vec!["/home/me".to_string(), ".config".to_string()])
    );
    assert_eq!(
        config(Some(""), Some("/home/me")),
        Some(vec!["/home/me".to_string(), ".config".to_string()])
    );
    assert_eq!(
        config(None, Some("/home/me")),
        Some(vec!["/home/me".to_string(), ".config".to_string()])
    );
    assert_eq!(
        data(None, Some("/home/me")),
        Some(vec!["/home/me".to_string(), ".local/share".to_string()])
    );
    assert_eq!(
        data(Some("x"), Some("/home/me")),
        Some(vec!["/home/me".to_string(), ".local/share".to_string()])
    );
}

#[test]
fn nothing_known_gives_nothing() {
    assert_eq!(config(None, None), None);
    assert_eq!(config(Some("relative"), None), None);
    assert_eq!(data(None, None), None);
}

#[test]
fn sockets_live_in_tmp() {
    assert_eq!(temp(), "/tmp");
}
