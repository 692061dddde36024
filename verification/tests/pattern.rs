use thcon::pattern::{replace_found, replace_line, replace_lines, Found};
use thcon::text::join;

fn found() -> Found {
    Found {
        before: "<".to_string(),
        groups: vec![
            Some("key=old;".to_string()),
            Some("key=".to_string()),
            None,
            Some(";".to_string()),
        ],
        after: ">".to_string(),
    }
}

#[test]
fn match_is_put_together_with_the_new_value() {
    assert_eq!(replace_found(&found(), 1, 3, "[", "new", "]"), "<key=[new];>");
    assert_eq!(replace_found(&found(), 3, 1, "", "new", ""), "<;newkey=>");
    assert_eq!(replace_found(&found(), 0, 0, "-", "", "-"), "<key=old;--key=old;>");
}

#[test]
fn leftmost_match_is_replaced() {
    let regex = regex::Regex::new("(a+)(b*)(c)").unwrap();
    assert_eq!(replace_line(&regex, "xaabcyac", 1, 3, "(", "v", ")"), "xaa(v)cyac");
    assert_eq!(replace_line(&regex, "no match", 1, 3, "(", "v", ")"), "no match");
    assert_eq!(replace_line(&regex, "", 1, 3, "(", "v", ")"), "");
}

#[test]
fn missing_groups_leave_the_line_alone() {
    let regex = regex::Regex::new("(a)|(b)").unwrap();
    assert_eq!(replace_line(&regex, "xay", 1, 2, "(", "v", ")"), "xay");
    assert_eq!(replace_line(&regex, "xay", 1, 1, "(", "v", ")"), "xa(v)ay");
    assert_eq!(replace_line(&regex, "xay", 1, 7, "(", "v", ")"), "xay");
    assert_eq!(replace_line(&regex, "xay", 0, 1, "(", "v", ")"), "xa(v)ay");
}

#[test]
fn text_beyond_ascii_is_cut_at_characters() {
    let regex = regex::Regex::new("(é+)(ü)").unwrap();
    assert_eq!(replace_line(&regex, "日本ééü語", 1, 2, "«", "ß", "»"), "日本éé«ß»ü語");
}

#[test]
fn each_line_is_replaced_on_its_own() {
    let regex = regex::Regex::new("^(k=)(.*)(;)").unwrap();
    let lines = vec!["k=1;".to_string(), "x".to_string(), "k=;k=2;".to_string()];
    assert_eq!(
        replace_lines(&regex, &lines, 1, 3, "", "v", ""),
        vec!["k=v;", "x", "k=v;"]
    );
    assert_eq!(replace_lines(&regex, &vec![], 1, 3, "", "v", ""), Vec::<String>::new());
}

#[test]
fn parts_are_joined_with_the_separator_between() {
    assert_eq!(join(&vec![], "\n"), "");
    assert_eq!(join(&vec!["a".to_string()], "\n"), "a");
    assert_eq!(join(&vec!["a".to_string(), "".to_string(), "b".to_string()], ", "), "a, , b");
    assert_eq!(join(&vec!["".to_string(), "".to_string()], "-"), "-");
}
