//! Severity levels and the severity parser.
//!
//! A severity is one of three ordered levels, `Debug < Info < Error`. It is
//! parsed from a single identifier token, case-insensitively; any other
//! token is rejected as an invalid severity.

use vstd::prelude::*;

verus! {

/// One of the three ordered severity levels that control whether a log line
/// is emitted.
#[derive(Clone, Copy, PartialEq, Eq, Structural, Debug)]
pub enum LogLevel {
    Debug,
    Info,
    Error,
}

/// Failure of a transformation. `InvalidSeverity` carries the offending
/// token's text; a caller that knows source positions attaches the span.
#[derive(PartialEq, Eq, Debug)]
pub enum TransformError {
    InvalidSeverity { token: String },
}

/// Rank of a level in the total order `Debug < Info < Error`.
pub open spec fn level_rank(l: LogLevel) -> int {
    match l {
        LogLevel::Debug => 0,
        LogLevel::Info => 1,
        LogLevel::Error => 2,
    }
}

/// The textual name of a level, used as the tag of a printed log line.
pub open spec fn level_name_spec(l: LogLevel) -> Seq<char> {
    match l {
        LogLevel::Debug => "DEBUG"@,
        LogLevel::Info => "INFO"@,
        LogLevel::Error => "ERROR"@,
    }
}

/// ASCII upper-casing of a single character; anything that is not an ASCII
/// lower-case letter is left unchanged.
pub open spec fn upper_char_spec(c: char) -> char {
    if 'a' <= c && c <= 'z' {
        ((c as u32) - 32) as char
    } else {
        c
    }
}

/// ASCII upper-casing of a character sequence, pointwise.
pub open spec fn upper_seq(s: Seq<char>) -> Seq<char> {
    s.map_values(|c: char| upper_char_spec(c))
}

/// What the severity parser accepts: a token whose upper-cased text is
/// exactly one of the three level names; everything else is rejected.
pub open spec fn parse_level_spec(s: Seq<char>) -> Option<LogLevel> {
    if upper_seq(s) == "DEBUG"@ {
        Some(LogLevel::Debug)
    } else if upper_seq(s) == "INFO"@ {
        Some(LogLevel::Info)
    } else if upper_seq(s) == "ERROR"@ {
        Some(LogLevel::Error)
    } else {
        None
    }
}

fn upper_char(c: char) -> (r: char)
    ensures
        r == upper_char_spec(c),
{
    let u = c as u32;
    if 97 <= u && u <= 122 {
        ((u - 32) as u8) as char
    } else {
        c
    }
}

/// True iff `s`, upper-cased, reads exactly as `t`.
fn eq_upper(s: &str, t: &str) -> (r: bool)
    ensures
        r == (upper_seq(s@) == t@),
{
    let sn = s.unicode_len();
    let tn = t.unicode_len();
    if sn != tn {
        assert(upper_seq(s@).len() == s@.len());
        return false;
    }
    let mut i: usize = 0;
    while i < sn
        invariant
            sn == s@.len(),
            tn == t@.len(),
            sn == tn,
            0 <= i <= sn,
            forall|j: int| 0 <= j < i ==> upper_seq(s@)[j] == t@[j],
        decreases sn - i,
    {
        let sc = s.get_char(i);
        let tc = t.get_char(i);
        if upper_char(sc) != tc {
            assert(upper_seq(s@)[i as int] != t@[i as int]);
            return false;
        }
        i += 1;
    }
    assert(upper_seq(s@) =~= t@);
    true
}

impl LogLevel {
    /// The severity parser: validates and normalizes a literal token,
    /// case-insensitively, into one of the three levels. Any token other
    /// than a spelling of `DEBUG`, `INFO` or `ERROR` is an invalid severity.
    pub fn parse(token: &str) -> (r: Result<LogLevel, TransformError>)
        ensures
            match parse_level_spec(token@) {
                Some(l) => r matches Ok(l2) && l2 == l,
                None => (r matches Err(TransformError::InvalidSeverity { token: t })
                    && t@ == token@),
            },
    {
        proof {
            reveal_strlit("DEBUG");
            reveal_strlit("INFO");
            reveal_strlit("ERROR");
        }
        if eq_upper(token, "DEBUG") {
            Ok(LogLevel::Debug)
        } else if eq_upper(token, "INFO") {
            Ok(LogLevel::Info)
        } else if eq_upper(token, "ERROR") {
            Ok(LogLevel::Error)
        } else {
            Err(TransformError::InvalidSeverity { token: token.to_owned() })
        }
    }

    /// True iff `self` is strictly below `other` in the order
    /// `Debug < Info < Error`.
    pub fn below(self, other: LogLevel) -> (r: bool)
        ensures
            r == (level_rank(self) < level_rank(other)),
    {
        match (self, other) {
            (LogLevel::Debug, LogLevel::Info) => true,
            (LogLevel::Debug, LogLevel::Error) => true,
            (LogLevel::Info, LogLevel::Error) => true,
            _ => false,
        }
    }

    /// The textual name of the level.
    pub fn name(self) -> (r: &'static str)
        ensures
            r@ == level_name_spec(self),
    {
        match self {
            LogLevel::Debug => "DEBUG",
            LogLevel::Info => "INFO",
            LogLevel::Error => "ERROR",
        }
    }
}

} // verus!
