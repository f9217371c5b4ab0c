//! Severity levels and the minimum-severity filter.
//!
//! A record carries a [`Level`]; the configuration carries a [`LevelFilter`],
//! which is either `Off` (nothing is emitted) or a least severe level that is
//! still emitted. The filter accepts exactly the records whose level is at
//! least as severe as the filter.

use vstd::prelude::*;

verus! {

/// Severity of a single log record, from most severe to least severe.
#[derive(Clone, Copy, Debug, PartialEq, Eq, Structural)]
pub enum Level {
    Error,
    Warn,
    Info,
    Debug,
    Trace,
}

/// Minimum-severity filter of the logging configuration: `Off` disables all
/// output; any other value names the least severe level still emitted.
#[derive(Clone, Copy, Debug, PartialEq, Eq, Structural)]
pub enum LevelFilter {
    Off,
    Error,
    Warn,
    Info,
    Debug,
    Trace,
}

/// Numeric verbosity of a record's level: `Error` is 1, `Trace` is 5.
pub open spec fn level_rank(l: Level) -> int {
    match l {
        Level::Error => 1,
        Level::Warn => 2,
        Level::Info => 3,
        Level::Debug => 4,
        Level::Trace => 5,
    }
}

/// Numeric verbosity admitted by a filter: `Off` is 0 (admits nothing),
/// `Trace` is 5 (admits everything).
pub open spec fn filter_rank(f: LevelFilter) -> int {
    match f {
        LevelFilter::Off => 0,
        LevelFilter::Error => 1,
        LevelFilter::Warn => 2,
        LevelFilter::Info => 3,
        LevelFilter::Debug => 4,
        LevelFilter::Trace => 5,
    }
}

/// A record passes a filter exactly when its level is at most as verbose as
/// the filter admits. `Off` passes nothing.
pub fn level_passes(l: Level, f: LevelFilter) -> (r: bool)
    ensures
        r == (level_rank(l) <= filter_rank(f)),
{
    let lr: u8 = match l {
        Level::Error => 1,
        Level::Warn => 2,
        Level::Info => 3,
        Level::Debug => 4,
        Level::Trace => 5,
    };
    let fr: u8 = match f {
        LevelFilter::Off => 0,
        LevelFilter::Error => 1,
        LevelFilter::Warn => 2,
        LevelFilter::Info => 3,
        LevelFilter::Debug => 4,
        LevelFilter::Trace => 5,
    };
    lr <= fr
}

/// Display name of a record level, as it appears inside a formatted record.
pub open spec fn spec_level_name(l: Level) -> Seq<char> {
    match l {
        Level::Error => "ERROR"@,
        Level::Warn => "WARN"@,
        Level::Info => "INFO"@,
        Level::Debug => "DEBUG"@,
        Level::Trace => "TRACE"@,
    }
}

/// Display name of a record level.
pub fn level_name(l: Level) -> (r: &'static str)
    ensures
        r@ == spec_level_name(l),
{
    match l {
        Level::Error => "ERROR",
        Level::Warn => "WARN",
        Level::Info => "INFO",
        Level::Debug => "DEBUG",
        Level::Trace => "TRACE",
    }
}

/// Name of a filter, as the configuration document writes it.
pub open spec fn spec_filter_name(f: LevelFilter) -> Seq<char> {
    match f {
        LevelFilter::Off => "Off"@,
        LevelFilter::Error => "Error"@,
        LevelFilter::Warn => "Warn"@,
        LevelFilter::Info => "Info"@,
        LevelFilter::Debug => "Debug"@,
        LevelFilter::Trace => "Trace"@,
    }
}

/// Name of a filter, as the configuration document writes it.
pub fn filter_name(f: LevelFilter) -> (r: &'static str)
    ensures
        r@ == spec_filter_name(f),
{
    match f {
        LevelFilter::Off => "Off",
        LevelFilter::Error => "Error",
        LevelFilter::Warn => "Warn",
        LevelFilter::Info => "Info",
        LevelFilter::Debug => "Debug",
        LevelFilter::Trace => "Trace",
    }
}

/// The filter named by a string of the configuration document, or `None` for
/// a string outside the enumerated set.
pub open spec fn spec_parse_filter(s: Seq<char>) -> Option<LevelFilter> {
    if s == "Off"@ {
        Some(LevelFilter::Off)
    } else if s == "Error"@ {
        Some(LevelFilter::Error)
    } else if s == "Warn"@ {
        Some(LevelFilter::Warn)
    } else if s == "Info"@ {
        Some(LevelFilter::Info)
    } else if s == "Debug"@ {
        Some(LevelFilter::Debug)
    } else if s == "Trace"@ {
        Some(LevelFilter::Trace)
    } else {
        None
    }
}

/// Every filter's name parses back to that filter: the enumerated names are
/// distinct, so writing a filter out and reading it in loses nothing.
pub proof fn lemma_filter_name_round_trip(f: LevelFilter)
    ensures
        spec_parse_filter(spec_filter_name(f)) == Some(f),
{
    reveal_strlit("Off");
    reveal_strlit("Error");
    reveal_strlit("Warn");
    reveal_strlit("Info");
    reveal_strlit("Debug");
    reveal_strlit("Trace");
    assert("Off"@.len() == 3);
    assert("Error"@.len() == 5);
    assert("Warn"@.len() == 4);
    assert("Info"@.len() == 4);
    assert("Debug"@.len() == 5);
    assert("Trace"@.len() == 5);
    assert("Warn"@[0] != "Info"@[0]);
    match f {
        LevelFilter::Off => {},
        LevelFilter::Error => {
            assert("Error"@ != "Off"@);
        },
        LevelFilter::Warn => {
            assert("Warn"@ != "Off"@);
            assert("Warn"@ != "Error"@);
        },
        LevelFilter::Info => {
            assert("Info"@ != "Off"@);
            assert("Info"@ != "Error"@);
            assert("Info"@ != "Warn"@);
        },
        LevelFilter::Debug => {
            assert("Debug"@[0] != "Error"@[0]);
            assert("Debug"@ != "Off"@);
            assert("Debug"@ != "Error"@);
            assert("Debug"@ != "Warn"@);
            assert("Debug"@ != "Info"@);
        },
        LevelFilter::Trace => {
            assert("Trace"@[0] != "Error"@[0]);
            assert("Trace"@[0] != "Debug"@[0]);
            assert("Trace"@ != "Off"@);
            assert("Trace"@ != "Error"@);
            assert("Trace"@ != "Warn"@);
            assert("Trace"@ != "Info"@);
            assert("Trace"@ != "Debug"@);
        },
    }
}

} // verus!
