use backend_supervisor::env::{override_search_dirs, parse_env_file, resolve, EnvironmentSet};

fn value_of(set: &EnvironmentSet, name: &str) -> Option<String> {
    set.get(name).cloned()
}

#[test]
fn resolve_without_override_holds_only_port() {
    let set = resolve(5001, None);
    assert_eq!(set.pairs().len(), 1);
    assert_eq!(value_of(&set, "PORT"), Some("5001".to_string()));
}

#[test]
fn resolve_with_override_adds_keys_and_skips_comments() {
    let set = resolve(5001, Some("FOO=bar\n# comment\n\nBAZ=qux"));
    assert_eq!(value_of(&set, "FOO"), Some("bar".to_string()));
    assert_eq!(value_of(&set, "BAZ"), Some("qux".to_string()));
    assert_eq!(value_of(&set, "PORT"), Some("5001".to_string()));
    assert_eq!(set.pairs().len(), 3);
    assert_eq!(value_of(&set, "# comment"), None);
}

#[test]
fn override_file_may_redefine_port() {
    let set = resolve(55001, Some("PORT=6000\nNODE_ENV=production\n"));
    assert_eq!(value_of(&set, "PORT"), Some("6000".to_string()));
    assert_eq!(value_of(&set, "NODE_ENV"), Some("production".to_string()));
    assert_eq!(set.pairs().len(), 2);
}

#[test]
fn later_line_overwrites_earlier_one() {
    let set = resolve(1, Some("A=1\nA=2"));
    assert_eq!(value_of(&set, "A"), Some("2".to_string()));
    assert_eq!(set.pairs().len(), 2);
}

#[test]
fn parse_trims_keys_and_values() {
    let entries = parse_env_file("  KEY = some value  \r\n\tOTHER=x\r\n");
    assert_eq!(
        entries,
        vec![
            ("KEY".to_string(), "some value".to_string()),
            ("OTHER".to_string(), "x".to_string())
        ]
    );
}

#[test]
fn parse_splits_on_first_equals() {
    let entries = parse_env_file("URL=http://h/?a=b");
    assert_eq!(entries, vec![("URL".to_string(), "http://h/?a=b".to_string())]);
}

#[test]
fn parse_skips_lines_without_equals_and_indented_comments() {
    let entries = parse_env_file("just text\n   # KEY=hidden\nK=v\n\n");
    assert_eq!(entries, vec![("K".to_string(), "v".to_string())]);
}

#[test]
fn parse_empty_text_gives_nothing() {
    assert!(parse_env_file("").is_empty());
    assert!(parse_env_file("\n\n   \n").is_empty());
}

#[test]
fn parse_keeps_empty_value_and_key() {
    let entries = parse_env_file("EMPTY=\n=orphan");
    assert_eq!(
        entries,
        vec![
            ("EMPTY".to_string(), String::new()),
            (String::new(), "orphan".to_string())
        ]
    );
}

#[test]
fn parse_trims_unicode_whitespace() {
    let entries = parse_env_file("\u{a0}NAME\u{3000}=\u{2003}välue\u{85}");
    assert_eq!(entries, vec![("NAME".to_string(), "välue".to_string())]);
}

#[test]
fn insert_replaces_existing_value() {
    let mut set = EnvironmentSet::with_port(80);
    set.insert("PORT".to_string(), "81".to_string());
    set.insert("X".to_string(), "y".to_string());
    assert_eq!(value_of(&set, "PORT"), Some("81".to_string()));
    assert_eq!(value_of(&set, "X"), Some("y".to_string()));
    assert_eq!(set.pairs().len(), 2);
}

#[test]
fn search_dirs_keep_priority_and_skip_unknown() {
    let dirs = override_search_dirs(
        Some("/app/bin".to_string()),
        None,
        Some("/app/res".to_string()),
        None,
        Some("/home".to_string()),
    );
    assert_eq!(dirs, vec!["/app/bin".to_string(), "/app/res".to_string(), "/home".to_string()]);
}
