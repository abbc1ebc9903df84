//! Levels of log messages shown to the user: a message that starts with
//! `*W` is a warning, one that starts with `*E` an error.
use vstd::prelude::*;
use vstd::string::{StrSliceExecFns, StringExecFns};

verus! {

#[derive(Debug, Clone, Copy, PartialEq, Eq, Structural)]
pub enum LogLevel {
    Info,
    Warning,
    Error,
}

pub open spec fn log_level_spec(s: Seq<char>) -> LogLevel {
    if s.len() >= 2 && s[0] == '*' && s[1] == 'W' {
        LogLevel::Warning
    } else if s.len() >= 2 && s[0] == '*' && s[1] == 'E' {
        LogLevel::Error
    } else {
        LogLevel::Info
    }
}

/// The level of a user-facing log message, from its two-character prefix.
pub fn log_level(msg: &String) -> (r: LogLevel)
    ensures
        r == log_level_spec(msg@),
{
    let s = msg.as_str();
    if s.unicode_len() < 2 {
        return LogLevel::Info;
    }
    let c0 = s.get_char(0);
    let c1 = s.get_char(1);
    if c0 == '*' && c1 == 'W' {
        LogLevel::Warning
    } else if c0 == '*' && c1 == 'E' {
        LogLevel::Error
    } else {
        LogLevel::Info
    }
}

/// The log line for a message of an automatic resume: the message under an
/// `Autoresume: ` prefix.
pub fn dummy_log(s: String) -> (r: String)
    ensures
        r@ == "Autoresume: "@ + s@,
{
    let mut r = String::from_str("Autoresume: ");
    r.append(s.as_str());
    r
}

} // verus!
