use vstd::prelude::*;

verus! {

/// The `[logging]` section of the configuration.
pub struct LoggingConfig {
    pub level: String,
}

/// The verbosity levels of the `log` crate's `LevelFilter`.
#[derive(Clone, Copy, Debug, PartialEq, Eq)]
pub enum LevelFilter {
    Off,
    Error,
    Warn,
    Info,
    Debug,
    Trace,
}

/// `c` with ASCII uppercase letters lowered.
pub open spec fn ascii_lower(c: char) -> char {
    if 'A' <= c && c <= 'Z' { ((c as u32) + 32) as char } else { c }
}

/// Equality up to ASCII case, as `str::eq_ignore_ascii_case` decides it.
pub open spec fn eq_ignore_ascii_case(a: Seq<char>, b: Seq<char>) -> bool {
    a.len() == b.len() && forall|i: int| 0 <= i < a.len() ==> ascii_lower(#[trigger] a[i]) == ascii_lower(b[i])
}

/// The level whose name `s` is, ignoring ASCII case, if any.
pub open spec fn level_filter_named(s: Seq<char>) -> Option<LevelFilter> {
    if eq_ignore_ascii_case(s, "OFF"@) {
        Some(LevelFilter::Off)
    } else if eq_ignore_ascii_case(s, "ERROR"@) {
        Some(LevelFilter::Error)
    } else if eq_ignore_ascii_case(s, "WARN"@) {
        Some(LevelFilter::Warn)
    } else if eq_ignore_ascii_case(s, "INFO"@) {
        Some(LevelFilter::Info)
    } else if eq_ignore_ascii_case(s, "DEBUG"@) {
        Some(LevelFilter::Debug)
    } else if eq_ignore_ascii_case(s, "TRACE"@) {
        Some(LevelFilter::Trace)
    } else {
        None
    }
}

/// Parses a level name with the `log` crate's `FromStr` for `LevelFilter`.
/// Trusted: the level is the one whose name (`OFF`, `ERROR`, `WARN`, `INFO`,
/// `DEBUG`, `TRACE`) `s` equals up to ASCII case, and `None` when there is none.
#[verifier::external_body]
fn parse_level_filter(s: &str) -> (res: Option<LevelFilter>)
    ensures
        res == level_filter_named(s@),
{
    match s.parse::<log::LevelFilter>() {
        Ok(log::LevelFilter::Off) => Some(LevelFilter::Off),
        Ok(log::LevelFilter::Error) => Some(LevelFilter::Error),
        Ok(log::LevelFilter::Warn) => Some(LevelFilter::Warn),
        Ok(log::LevelFilter::Info) => Some(LevelFilter::Info),
        Ok(log::LevelFilter::Debug) => Some(LevelFilter::Debug),
        Ok(log::LevelFilter::Trace) => Some(LevelFilter::Trace),
        Err(_) => None,
    }
}

impl LoggingConfig {
    /// The configured level, or `Info` when the configured name is no level.
    pub fn level_filter(&self) -> (res: LevelFilter)
        ensures
            res == match level_filter_named(self.level@) {
                Some(l) => l,
                None => LevelFilter::Info,
            },
    {
        match parse_level_filter(self.level.as_str()) {
            Some(l) => l,
            None => LevelFilter::Info,
        }
    }
}

} // verus!
