use deepwell::config::{
    days_to_seconds, eq_ignore_ascii_case, minutes_to_seconds, parse_log_level, prefix_domain, LogLevel,
};

fn check(input: &str, output_1: &str, output_2: &str) {
    let (actual_1, actual_2) = prefix_domain(input.to_string());

    assert_eq!(actual_1, output_1, "Actual dot domain doesn't match");
    assert_eq!(actual_2, output_2, "Actual no-dot domain doesn't match");
}

#[test]
fn test_prefix_domain() {
    check("example.com", ".example.com", "example.com");
    check(".example.com", ".example.com", "example.com");
}

#[test]
fn prefix_domain_of_empty_and_bare_dot() {
    check("", ".", "");
    check(".", ".", "");
    check("..a", "..a", ".a");
}

#[test]
fn prefix_domain_keeps_non_ascii() {
    check("b\u{fc}cher.example", ".b\u{fc}cher.example", "b\u{fc}cher.example");
    check(".b\u{fc}cher.example", ".b\u{fc}cher.example", "b\u{fc}cher.example");
}

#[test]
fn log_level_names() {
    assert_eq!(parse_log_level("off"), Some(LogLevel::Off));
    assert_eq!(parse_log_level("err"), Some(LogLevel::Error));
    assert_eq!(parse_log_level("error"), Some(LogLevel::Error));
    assert_eq!(parse_log_level("warn"), Some(LogLevel::Warn));
    assert_eq!(parse_log_level("warning"), Some(LogLevel::Warn));
    assert_eq!(parse_log_level("info"), Some(LogLevel::Info));
    assert_eq!(parse_log_level("information"), Some(LogLevel::Info));
    assert_eq!(parse_log_level("debug"), Some(LogLevel::Debug));
    assert_eq!(parse_log_level("trace"), Some(LogLevel::Trace));
    assert_eq!(parse_log_level("all"), Some(LogLevel::Trace));
}

#[test]
fn log_level_ignores_case() {
    assert_eq!(parse_log_level("OFF"), Some(LogLevel::Off));
    assert_eq!(parse_log_level("WaRnInG"), Some(LogLevel::Warn));
    assert_eq!(parse_log_level("Information"), Some(LogLevel::Info));
}

#[test]
fn log_level_rejects_other_values() {
    assert_eq!(parse_log_level(""), None);
    assert_eq!(parse_log_level("verbose"), None);
    assert_eq!(parse_log_level("errors"), None);
    assert_eq!(parse_log_level(" off"), None);
    assert_eq!(parse_log_level("o\u{fb00}"), None);
}

#[test]
fn ascii_case_folding_leaves_other_characters() {
    assert!(eq_ignore_ascii_case("Trace", "tRACE"));
    assert!(!eq_ignore_ascii_case("[", "{"));
    assert!(!eq_ignore_ascii_case("@", "`"));
    assert!(!eq_ignore_ascii_case("\u{c4}", "\u{e4}"));
    assert!(!eq_ignore_ascii_case("ab", "abc"));
}

#[test]
fn durations_in_seconds() {
    assert_eq!(minutes_to_seconds(0), 0);
    assert_eq!(minutes_to_seconds(30), 1800);
    assert_eq!(minutes_to_seconds(u64::MAX / 60), u64::MAX / 60 * 60);
    assert_eq!(days_to_seconds(0), 0);
    assert_eq!(days_to_seconds(90), 7_776_000);
}
