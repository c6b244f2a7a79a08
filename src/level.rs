//! The severity model: five ordered levels and their textual names.
use vstd::prelude::*;

verus! {

/// A log severity, from most severe (`Error`) to least severe (`Trace`).
#[derive(Clone, Copy, Debug, PartialEq, Eq, Structural)]
pub enum Level {
    Error,
    Warn,
    Info,
    Debug,
    Trace,
}

/// The failure to read a level name.
#[derive(Clone, Copy, Debug, PartialEq, Eq, Structural)]
pub enum LevelError {
    InvalidLevel,
}

impl Level {
    /// Position in the severity order: 1 for `Error` up to 5 for `Trace`.
    pub open spec fn spec_rank(self) -> nat {
        match self {
            Level::Error => 1,
            Level::Warn => 2,
            Level::Info => 3,
            Level::Debug => 4,
            Level::Trace => 5,
        }
    }

    /// `self` is at least as severe as `other`.
    pub open spec fn spec_within(self, other: Level) -> bool {
        self.spec_rank() <= other.spec_rank()
    }

    /// The canonical upper-case name of the level.
    pub open spec fn spec_name(self) -> Seq<char> {
        match self {
            Level::Error => seq!['E', 'R', 'R', 'O', 'R'],
            Level::Warn => seq!['W', 'A', 'R', 'N'],
            Level::Info => seq!['I', 'N', 'F', 'O'],
            Level::Debug => seq!['D', 'E', 'B', 'U', 'G'],
            Level::Trace => seq!['T', 'R', 'A', 'C', 'E'],
        }
    }

    pub fn rank(&self) -> (r: u8)
        ensures
            r as nat == self.spec_rank(),
    {
        match self {
            Level::Error => 1,
            Level::Warn => 2,
            Level::Info => 3,
            Level::Debug => 4,
            Level::Trace => 5,
        }
    }

    /// Whether an event at `self` passes a threshold of `threshold`.
    pub fn within(&self, threshold: &Level) -> (r: bool)
        ensures
            r == self.spec_within(*threshold),
    {
        self.rank() <= threshold.rank()
    }

    /// The canonical upper-case name, as the logging facade spells it.
    pub fn as_str(&self) -> (r: &'static str)
        ensures
            r@ == self.spec_name(),
    {
        facade_name(*self)
    }
}

/// ASCII lower-casing of one character; other characters are unchanged.
pub open spec fn ascii_lower(c: char) -> char {
    if 'A' <= c && c <= 'Z' {
        ((c as u32) + 32) as char
    } else {
        c
    }
}

/// `s` equals `name` when ASCII letters are compared without regard to case.
pub open spec fn same_ignoring_case(s: Seq<char>, name: Seq<char>) -> bool {
    &&& s.len() == name.len()
    &&& forall|i: int| 0 <= i < s.len() ==> #[trigger] ascii_lower(s[i]) == ascii_lower(name[i])
}

/// The level whose name `s` spells, in any ASCII case.
pub open spec fn level_named(s: Seq<char>) -> Option<Level> {
    if same_ignoring_case(s, Level::Error.spec_name()) {
        Some(Level::Error)
    } else if same_ignoring_case(s, Level::Warn.spec_name()) {
        Some(Level::Warn)
    } else if same_ignoring_case(s, Level::Info.spec_name()) {
        Some(Level::Info)
    } else if same_ignoring_case(s, Level::Debug.spec_name()) {
        Some(Level::Debug)
    } else if same_ignoring_case(s, Level::Trace.spec_name()) {
        Some(Level::Trace)
    } else {
        None
    }
}

/// Relies on `log::Level::as_str`: the upper-case name of each level.
#[verifier::external_body]
fn facade_name(level: Level) -> (r: &'static str)
    ensures
        r@ == level.spec_name(),
{
    let facade = match level {
        Level::Error => log::Level::Error,
        Level::Warn => log::Level::Warn,
        Level::Info => log::Level::Info,
        Level::Debug => log::Level::Debug,
        Level::Trace => log::Level::Trace,
    };
    facade.as_str()
}

/// Relies on `<log::Level as FromStr>::from_str`: it accepts the five level
/// names compared case-insensitively in ASCII, and refuses all other text.
#[verifier::external_body]
fn facade_parse(text: &str) -> (r: Option<Level>)
    ensures
        r == level_named(text@),
{
    match text.parse::<log::Level>() {
        Ok(log::Level::Error) => Some(Level::Error),
        Ok(log::Level::Warn) => Some(Level::Warn),
        Ok(log::Level::Info) => Some(Level::Info),
        Ok(log::Level::Debug) => Some(Level::Debug),
        Ok(log::Level::Trace) => Some(Level::Trace),
        Err(_) => None,
    }
}

/// Reads a level name, in any ASCII case; other text is an `InvalidLevel`.
pub fn parse_level(text: &str) -> (r: Result<Level, LevelError>)
    ensures
        r matches Ok(l) ==> level_named(text@) == Some(l),
        r matches Err(e) ==> level_named(text@) is None && e == LevelError::InvalidLevel,
{
    match facade_parse(text) {
        Some(l) => Ok(l),
        None => Err(LevelError::InvalidLevel),
    }
}

/// The starting global level: the named level when `text` names one, and
/// `Info` when it is absent or names none.
pub fn initial_level(text: Option<&str>) -> (r: Level)
    ensures
        r == match text {
            Some(t) => match level_named(t@) {
                Some(l) => l,
                None => Level::Info,
            },
            None => Level::Info,
        },
{
    match text {
        Some(t) => match parse_level(t) {
            Ok(l) => l,
            Err(_) => Level::Info,
        },
        None => Level::Info,
    }
}

} // verus!
