//! Log-level selection: the one piece of command-line handling with a
//! decision in it, the mapping from a level name to a verbosity level.

use vstd::prelude::*;
use vstd::string::StrSliceExecFns;

verus! {

/// Character-wise equality of two string slices.
pub fn str_eq(a: &str, b: &str) -> (r: bool)
    ensures
        r == (a@ == b@),
{
    let a_len = a.unicode_len();
    let b_len = b.unicode_len();
    if a_len != b_len {
        return false;
    }
    let mut i: usize = 0;
    while i < a_len
        invariant
            a_len == a@.len(),
            b_len == b@.len(),
            a_len == b_len,
            0 <= i <= a_len,
            forall|k: int| 0 <= k < i ==> a@[k] == b@[k],
        decreases a_len - i,
    {
        if a.get_char(i) != b.get_char(i) {
            return false;
        }
        i = i + 1;
    }
    proof {
        assert(a@ =~= b@);
    }
    true
}

/// A logging verbosity level, from most to least verbose.
#[derive(Clone, Copy, PartialEq, Eq, Structural, Debug)]
pub enum LogLevel {
    Trace,
    Debug,
    Info,
    Warn,
    Error,
}

/// The level a name selects: exactly the five lower-case level names are
/// accepted.
pub open spec fn parsed_log_level(s: Seq<char>) -> Option<LogLevel> {
    if s == "trace"@ {
        Option::Some(LogLevel::Trace)
    } else if s == "debug"@ {
        Option::Some(LogLevel::Debug)
    } else if s == "info"@ {
        Option::Some(LogLevel::Info)
    } else if s == "warn"@ {
        Option::Some(LogLevel::Warn)
    } else if s == "error"@ {
        Option::Some(LogLevel::Error)
    } else {
        Option::None
    }
}

/// Parses a log-level name; rejects everything but the five level names.
pub fn parse_log_level(s: &str) -> (r: Option<LogLevel>)
    ensures
        r == parsed_log_level(s@),
{
    if str_eq(s, "trace") {
        Option::Some(LogLevel::Trace)
    } else if str_eq(s, "debug") {
        Option::Some(LogLevel::Debug)
    } else if str_eq(s, "info") {
        Option::Some(LogLevel::Info)
    } else if str_eq(s, "warn") {
        Option::Some(LogLevel::Warn)
    } else if str_eq(s, "error") {
        Option::Some(LogLevel::Error)
    } else {
        Option::None
    }
}

} // verus!
