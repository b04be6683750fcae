use runtime_supervisor::envfile::{parse_env, parse_env_line};

#[test]
fn env_line_forms() {
    assert_eq!(parse_env_line("  KEY = value  "), Some(("KEY".to_string(), "value".to_string())));
    assert_eq!(parse_env_line("K=\"quoted\""), Some(("K".to_string(), "quoted".to_string())));
    assert_eq!(parse_env_line("K='single'"), Some(("K".to_string(), "single".to_string())));
    assert_eq!(parse_env_line("K=a=b"), Some(("K".to_string(), "a=b".to_string())));
    assert_eq!(parse_env_line("K="), Some(("K".to_string(), "".to_string())));
    assert_eq!(parse_env_line("# comment"), None);
    assert_eq!(parse_env_line("   "), None);
    assert_eq!(parse_env_line("no separator"), None);
}

#[test]
fn later_keys_replace_earlier_ones() {
    let content = "# db\r\nDATABASE_URL=\"file:a\"\r\n\nPORT=1\nDATABASE_URL=file:b\n";
    let entries = parse_env(content);
    assert_eq!(
        entries,
        vec![("DATABASE_URL".to_string(), "file:b".to_string()), ("PORT".to_string(), "1".to_string())]
    );
    assert_eq!(parse_env(""), Vec::new());
    assert_eq!(parse_env("A=1"), vec![("A".to_string(), "1".to_string())]);
}
