//! Severity levels and console colours.

use vstd::prelude::*;

verus! {

/// The severity of a log event, ordered `Debug < Info < Warning < Error < Critical`.
#[derive(Clone, Copy, Debug, PartialEq, Eq, Structural, PartialOrd, Ord, Hash)]
pub enum LogLevel {
    Debug,
    Info,
    Warning,
    Error,
    Critical,
}

/// A presentation hint for console rendering, independent of severity.
#[derive(Clone, Copy, Debug, PartialEq, Eq, Structural, Hash)]
pub enum LogColor {
    Normal,
    Green,
    Blue,
    Magenta,
    Cyan,
    Yellow,
    Red,
}

impl LogLevel {
    /// The position of the level in the severity order.
    pub open spec fn rank(self) -> nat {
        match self {
            LogLevel::Debug => 0,
            LogLevel::Info => 1,
            LogLevel::Warning => 2,
            LogLevel::Error => 3,
            LogLevel::Critical => 4,
        }
    }

    /// `self ≥ min` in the severity order.
    pub open spec fn at_least(self, min: LogLevel) -> bool {
        self.rank() >= min.rank()
    }

    /// The three-letter tag that stands for the level in a formatted line.
    pub open spec fn tag(self) -> Seq<char> {
        match self {
            LogLevel::Debug => "DBG"@,
            LogLevel::Info => "INF"@,
            LogLevel::Warning => "WRN"@,
            LogLevel::Error => "ERR"@,
            LogLevel::Critical => "CRT"@,
        }
    }

    /// The position of the level in the severity order, as a number.
    pub fn ordinal(self) -> (r: u8)
        ensures
            r as nat == self.rank(),
    {
        match self {
            LogLevel::Debug => 0,
            LogLevel::Info => 1,
            LogLevel::Warning => 2,
            LogLevel::Error => 3,
            LogLevel::Critical => 4,
        }
    }

    /// Whether this level reaches the minimum `min`.
    pub fn is_at_least(self, min: LogLevel) -> (r: bool)
        ensures
            r == self.at_least(min),
    {
        self.ordinal() >= min.ordinal()
    }

    /// The tag of the level as text.
    pub fn as_tag(self) -> (r: &'static str)
        ensures
            r@ == self.tag(),
    {
        match self {
            LogLevel::Debug => "DBG",
            LogLevel::Info => "INF",
            LogLevel::Warning => "WRN",
            LogLevel::Error => "ERR",
            LogLevel::Critical => "CRT",
        }
    }
}

impl LogColor {
    /// The terminal escape sequence that switches to the colour.
    pub open spec fn code(self) -> Seq<char> {
        match self {
            LogColor::Normal => ""@,
            LogColor::Green => "\x1b[92m"@,
            LogColor::Blue => "\x1b[94m"@,
            LogColor::Magenta => "\x1b[35m"@,
            LogColor::Cyan => "\x1b[36m"@,
            LogColor::Yellow => "\x1b[1;33m"@,
            LogColor::Red => "\x1b[1;31m"@,
        }
    }

    /// The escape sequence of the colour as text.
    pub fn as_code(self) -> (r: &'static str)
        ensures
            r@ == self.code(),
    {
        match self {
            LogColor::Normal => "",
            LogColor::Green => "\x1b[92m",
            LogColor::Blue => "\x1b[94m",
            LogColor::Magenta => "\x1b[35m",
            LogColor::Cyan => "\x1b[36m",
            LogColor::Yellow => "\x1b[1;33m",
            LogColor::Red => "\x1b[1;31m",
        }
    }
}

/// The severity order is total: any two levels compare, and two levels that
/// reach each other are the same level.
pub proof fn lemma_level_order_total(a: LogLevel, b: LogLevel)
    ensures
        a.at_least(b) || b.at_least(a),
        a.at_least(b) && b.at_least(a) ==> a == b,
        a.at_least(a),
{
}

/// The severity order is transitive.
pub proof fn lemma_level_order_transitive(a: LogLevel, b: LogLevel, c: LogLevel)
    requires
        a.at_least(b),
        b.at_least(c),
    ensures
        a.at_least(c),
{
}

} // verus!
