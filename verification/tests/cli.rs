use piri::cli::{LogLevel, parse_log_level, str_eq};

#[test]
fn parses_every_level_name() {
    assert_eq!(parse_log_level("trace"), Some(LogLevel::Trace));
    assert_eq!(parse_log_level("debug"), Some(LogLevel::Debug));
    assert_eq!(parse_log_level("info"), Some(LogLevel::Info));
    assert_eq!(parse_log_level("warn"), Some(LogLevel::Warn));
    assert_eq!(parse_log_level("error"), Some(LogLevel::Error));
}

#[test]
fn rejects_unknown_level_names() {
    assert_eq!(parse_log_level(""), None);
    assert_eq!(parse_log_level("INFO"), None);
    assert_eq!(parse_log_level("warning"), None);
    assert_eq!(parse_log_level("tracing"), None);
}

#[test]
fn str_eq_compares_character_wise() {
    assert!(str_eq("", ""));
    assert!(str_eq("abc", "abc"));
    assert!(!str_eq("abc", "abd"));
    assert!(!str_eq("ab", "abc"));
    assert!(str_eq("fenstertitel \u{00e9}", "fenstertitel \u{00e9}"));
    assert!(!str_eq("a\u{00e9}", "a\u{00e8}"));
}
