use vstd::prelude::*;

verus! {

/// Whether a domain is written with a leading dot.
pub open spec fn has_leading_dot(domain: Seq<char>) -> bool {
    domain.len() > 0 && domain[0] == '.'
}

/// Takes a domain, and returns it with and without a leading `.`
///
/// The first item of the pair has a leading `.`, the second does not. A
/// domain that already starts with a dot is returned as it is and with
/// that dot removed; any other domain is returned with a dot put in
/// front and as it is.
pub fn prefix_domain(domain: String) -> (r: (String, String))
    ensures
        has_leading_dot(domain@) ==> r.0@ == domain@ && r.1@ == domain@.subrange(1, domain@.len() as int),
        !has_leading_dot(domain@) ==> r.0@ == seq!['.'] + domain@ && r.1@ == domain@,
{
    let text = domain.as_str();
    if !text.is_empty() && text.get_char(0) == '.' {
        let length = text.unicode_len();
        let no_dot = text.substring_char(1, length).to_owned();
        (domain, no_dot)
    } else {
        proof {
            reveal_strlit(".");
        }
        let dot_domain = ".".to_owned().concat(text);
        assert(dot_domain@ =~= seq!['.'] + domain@);
        (dot_domain, domain)
    }
}

/// The number of seconds in a day.
pub const SECONDS_PER_DAY: u64 = 86_400;

/// A number of minutes, in seconds.
pub fn minutes_to_seconds(minutes: u64) -> (seconds: u64)
    requires
        minutes * 60 <= u64::MAX,
    ensures
        seconds == minutes * 60,
{
    minutes * 60
}

/// A number of days, in seconds.
pub fn days_to_seconds(days: u64) -> (seconds: u64)
    requires
        days * SECONDS_PER_DAY <= u64::MAX,
    ensures
        seconds == days * SECONDS_PER_DAY,
{
    days * SECONDS_PER_DAY
}

/// How much the logger reports.
#[derive(Debug, Clone, Copy, PartialEq, Eq, Structural)]
pub enum LogLevel {
    Off,
    Error,
    Warn,
    Info,
    Debug,
    Trace,
}

/// A character with an upper-case ASCII letter replaced by its lower-case
/// form, as a code point.
pub open spec fn ascii_folded(c: char) -> u32 {
    if 'A' <= c <= 'Z' {
        (c as u32 + 32) as u32
    } else {
        c as u32
    }
}

/// Whether two strings are equal up to the case of their ASCII letters.
pub open spec fn same_ignoring_ascii_case(a: Seq<char>, b: Seq<char>) -> bool {
    a.len() == b.len() && forall|i: int| 0 <= i < a.len() ==> ascii_folded(#[trigger] a[i]) == ascii_folded(b[i])
}

/// The level that a name stands for, whatever the case of its letters.
pub open spec fn level_named(value: Seq<char>) -> Option<LogLevel> {
    if same_ignoring_ascii_case(value, "off"@) {
        Some(LogLevel::Off)
    } else if same_ignoring_ascii_case(value, "err"@) || same_ignoring_ascii_case(value, "error"@) {
        Some(LogLevel::Error)
    } else if same_ignoring_ascii_case(value, "warn"@) || same_ignoring_ascii_case(value, "warning"@) {
        Some(LogLevel::Warn)
    } else if same_ignoring_ascii_case(value, "info"@) || same_ignoring_ascii_case(value, "information"@) {
        Some(LogLevel::Info)
    } else if same_ignoring_ascii_case(value, "debug"@) {
        Some(LogLevel::Debug)
    } else if same_ignoring_ascii_case(value, "trace"@) || same_ignoring_ascii_case(value, "all"@) {
        Some(LogLevel::Trace)
    } else {
        None
    }
}

/// A character's code point with an upper-case ASCII letter folded.
fn fold_ascii(c: char) -> (r: u32)
    ensures
        r == ascii_folded(c),
{
    let code = c as u32;
    if 65 <= code && code <= 90 {
        code + 32
    } else {
        code
    }
}

/// Whether two strings are equal up to the case of their ASCII letters.
pub fn eq_ignore_ascii_case(a: &str, b: &str) -> (r: bool)
    ensures
        r == same_ignoring_ascii_case(a@, b@),
{
    let n = a.unicode_len();
    if n != b.unicode_len() {
        return false;
    }
    let mut i: usize = 0;
    while i < n
        invariant
            i <= n,
            n == a@.len(),
            n == b@.len(),
            forall|k: int| 0 <= k < i ==> ascii_folded(#[trigger] a@[k]) == ascii_folded(b@[k]),
        decreases n - i,
    {
        if fold_ascii(a.get_char(i)) != fold_ascii(b.get_char(i)) {
            return false;
        }
        i += 1;
    }
    true
}

/// Reads the name of a logging level.
///
/// The names are `off`, `err` or `error`, `warn` or `warning`, `info` or
/// `information`, `debug`, and `trace` or `all`, in any mix of upper and
/// lower case. Any other value is no level.
pub fn parse_log_level(value: &str) -> (r: Option<LogLevel>)
    ensures
        r == level_named(value@),
{
    if eq_ignore_ascii_case(value, "off") {
        Some(LogLevel::Off)
    } else if eq_ignore_ascii_case(value, "err") || eq_ignore_ascii_case(value, "error") {
        Some(LogLevel::Error)
    } else if eq_ignore_ascii_case(value, "warn") || eq_ignore_ascii_case(value, "warning") {
        Some(LogLevel::Warn)
    } else if eq_ignore_ascii_case(value, "info") || eq_ignore_ascii_case(value, "information") {
        Some(LogLevel::Info)
    } else if eq_ignore_ascii_case(value, "debug") {
        Some(LogLevel::Debug)
    } else if eq_ignore_ascii_case(value, "trace") || eq_ignore_ascii_case(value, "all") {
        Some(LogLevel::Trace)
    } else {
        None
    }
}

} // verus!
