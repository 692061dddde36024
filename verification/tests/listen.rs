use thcon::listen::{respond, Reply};

#[test]
fn json_is_forwarded_on_one_line() {
    assert_eq!(
        respond("{ \"core.themes\": [\"one-dark-ui\", \"one-dark-syntax\"] }", false),
        Some(Reply::Forward("{\"core.themes\":[\"one-dark-ui\",\"one-dark-syntax\"]}".to_string()))
    );
    assert_eq!(
        respond("{\n  \"rc_file\": \"/tmp/vimrc\"\n}\n", true),
        Some(Reply::Forward("{\"rc_file\":\"/tmp/vimrc\"}".to_string()))
    );
}

#[test]
fn white_space_around_a_request_is_ignored() {
    assert_eq!(respond(" \t 42 \r\n", false), Some(Reply::Forward("42".to_string())));
    assert_eq!(respond("\u{a0}true\u{2003}", false), Some(Reply::Forward("true".to_string())));
}

#[test]
fn other_requests_are_passed_over() {
    assert_eq!(respond("hello", false), Some(Reply::Ignore));
    assert_eq!(respond("", false), Some(Reply::Ignore));
    assert_eq!(respond("{\"a\": 1} trailing", false), Some(Reply::Ignore));
}

#[test]
fn a_verbose_listener_complains() {
    assert_eq!(
        respond(" hello\n", true),
        Some(Reply::Complain("Received non-JSON input: ' hello\n'".to_string()))
    );
    assert_eq!(
        respond("", true),
        Some(Reply::Complain("Received non-JSON input: ''".to_string()))
    );
}
