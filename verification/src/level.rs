//! Log severity levels.

use vstd::prelude::*;
use vstd::string::StringSliceAdditionalSpecFns;

verus! {

/// A log record's severity, from most verbose to most severe.
#[derive(Clone, Copy, Debug, PartialEq, Eq, Hash, Structural)]
pub enum Level {
    /// Finest-grained tracing output.
    Trace,
    /// Diagnostic output for development.
    Debug,
    /// Routine operational output.
    Info,
    /// Something needs attention but the program continues.
    Warn,
    /// An error that needs immediate attention.
    Error,
}

/// The numeric rank of a level; higher means more severe.
pub open spec fn level_severity(l: Level) -> nat {
    match l {
        Level::Trace => 0,
        Level::Debug => 1,
        Level::Info => 2,
        Level::Warn => 3,
        Level::Error => 4,
    }
}

/// The upper-case name of a level, as a character sequence.
pub open spec fn level_name(l: Level) -> Seq<char> {
    match l {
        Level::Trace => "TRACE"@,
        Level::Debug => "DEBUG"@,
        Level::Info => "INFO"@,
        Level::Warn => "WARN"@,
        Level::Error => "ERROR"@,
    }
}

impl Level {
    /// The numeric rank of this level; higher means more severe.
    pub fn severity(self) -> (r: u8)
        ensures
            r == level_severity(self),
    {
        match self {
            Level::Trace => 0,
            Level::Debug => 1,
            Level::Info => 2,
            Level::Warn => 3,
            Level::Error => 4,
        }
    }

    /// The upper-case name of this level.
    pub fn as_str(&self) -> (r: &'static str)
        ensures
            r@ == level_name(*self),
    {
        match self {
            Level::Trace => "TRACE",
            Level::Debug => "DEBUG",
            Level::Info => "INFO",
            Level::Warn => "WARN",
            Level::Error => "ERROR",
        }
    }
}

/// `b` with an ASCII lower-case letter raised to upper case; any other
/// byte is kept.
pub open spec fn ascii_upper_byte(b: u8) -> u8 {
    if 97 <= b && b <= 122 {
        (b - 32) as u8
    } else {
        b
    }
}

/// `s` with every ASCII lower-case letter raised to upper case.
pub open spec fn ascii_upper(s: Seq<u8>) -> Seq<u8> {
    s.map_values(|b: u8| ascii_upper_byte(b))
}

/// Whether `s` spells the name of `l`, ignoring ASCII case. The names
/// hold no lower-case letters, so upper-casing them changes nothing; it
/// is written on both sides so the rule reads the same as its check.
pub open spec fn spells_level(s: Seq<u8>, l: Level) -> bool {
    ascii_upper(s) == ascii_upper(vstd::utf8::encode_utf8(level_name(l)))
}

/// The level whose name `s` spells, ignoring ASCII case, if any.
pub open spec fn parsed_level(s: Seq<u8>) -> Option<Level> {
    if spells_level(s, Level::Trace) {
        Some(Level::Trace)
    } else if spells_level(s, Level::Debug) {
        Some(Level::Debug)
    } else if spells_level(s, Level::Info) {
        Some(Level::Info)
    } else if spells_level(s, Level::Warn) {
        Some(Level::Warn)
    } else if spells_level(s, Level::Error) {
        Some(Level::Error)
    } else {
        None
    }
}

/// Whether the two byte strings are equal once ASCII case is ignored.
fn upper_eq(s: &[u8], t: &[u8]) -> (r: bool)
    ensures
        r == (ascii_upper(s@) == ascii_upper(t@)),
{
    if s.len() != t.len() {
        proof {
            assert(ascii_upper(s@).len() != ascii_upper(t@).len());
        }
        return false;
    }
    let mut i: usize = 0;
    while i < s.len()
        invariant
            i <= s@.len(),
            s@.len() == t@.len(),
            forall|j: int| 0 <= j < i ==> ascii_upper(s@)[j] == ascii_upper(t@)[j],
        decreases s@.len() - i,
    {
        let a = s[i];
        let b = t[i];
        let ua: u8 = if 97 <= a && a <= 122 {
            a - 32
        } else {
            a
        };
        let ub: u8 = if 97 <= b && b <= 122 {
            b - 32
        } else {
            b
        };
        if ua != ub {
            proof {
                assert(ascii_upper(s@)[i as int] != ascii_upper(t@)[i as int]);
            }
            return false;
        }
        i = i + 1;
    }
    proof {
        assert(ascii_upper(s@) =~= ascii_upper(t@));
    }
    true
}

impl Level {
    /// Parse a level name, ignoring ASCII case: exactly the five level
    /// names are accepted, each yielding its level.
    pub fn parse(text: &str) -> (r: Option<Level>)
        ensures
            r == parsed_level(text.spec_bytes()),
    {
        let bytes = text.as_bytes();
        if upper_eq(bytes, "TRACE".as_bytes()) {
            Some(Level::Trace)
        } else if upper_eq(bytes, "DEBUG".as_bytes()) {
            Some(Level::Debug)
        } else if upper_eq(bytes, "INFO".as_bytes()) {
            Some(Level::Info)
        } else if upper_eq(bytes, "WARN".as_bytes()) {
            Some(Level::Warn)
        } else if upper_eq(bytes, "ERROR".as_bytes()) {
            Some(Level::Error)
        } else {
            None
        }
    }
}

impl core::str::FromStr for Level {
    type Err = ();

    /// Parse a level name, ignoring ASCII case; see [`Level::parse`].
    fn from_str(text: &str) -> Result<Level, ()> {
        match Level::parse(text) {
            Some(l) => Ok(l),
            None => Err(()),
        }
    }
}

impl Default for Level {
    /// The default level is `Info`.
    fn default() -> (r: Self)
        ensures
            r == Level::Info,
    {
        Level::Info
    }
}

} // verus!
