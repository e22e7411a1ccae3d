//! What the console logger decides for a record: whether it is written,
//! through which console channel, and as which line.

use vstd::prelude::*;

verus! {

/// The severity of a record, the most severe first.
#[derive(Clone, Copy, Debug, PartialEq, Eq, Structural)]
pub enum Level {
    Error,
    Warn,
    Info,
    Debug,
    Trace,
}

/// The least severe level that is still written, or `Off` for none.
#[derive(Clone, Copy, Debug, PartialEq, Eq, Structural)]
pub enum LevelFilter {
    Off,
    Error,
    Warn,
    Info,
    Debug,
    Trace,
}

/// A channel of the console.
#[derive(Clone, Copy, Debug, PartialEq, Eq, Structural)]
pub enum Console {
    Error,
    Warn,
    Info,
    Log,
    Debug,
}

/// The place of a level in the order of severity: 1 for errors, 5 for traces.
pub open spec fn rank(level: Level) -> nat {
    match level {
        Level::Error => 1,
        Level::Warn => 2,
        Level::Info => 3,
        Level::Debug => 4,
        Level::Trace => 5,
    }
}

/// The greatest rank that a filter lets through: 0 for `Off`.
pub open spec fn limit(filter: LevelFilter) -> nat {
    match filter {
        LevelFilter::Off => 0,
        LevelFilter::Error => 1,
        LevelFilter::Warn => 2,
        LevelFilter::Info => 3,
        LevelFilter::Debug => 4,
        LevelFilter::Trace => 5,
    }
}

/// The filter that lets a level and everything more severe through.
pub open spec fn filter_of(level: Level) -> LevelFilter {
    match level {
        Level::Error => LevelFilter::Error,
        Level::Warn => LevelFilter::Warn,
        Level::Info => LevelFilter::Info,
        Level::Debug => LevelFilter::Debug,
        Level::Trace => LevelFilter::Trace,
    }
}

/// The channel through which records of a level are written.
pub open spec fn channel_of(level: Level) -> Console {
    match level {
        Level::Error => Console::Error,
        Level::Warn => Console::Warn,
        Level::Info => Console::Info,
        Level::Debug => Console::Log,
        Level::Trace => Console::Debug,
    }
}

/// The module whose records are never written.
pub open spec fn muted_module() -> Seq<char> {
    "html5ever::serialize"@
}

/// The line that is written for a record: its module in brackets, a space
/// and its message.
pub open spec fn line_of(origin: Seq<char>, message: Seq<char>) -> Seq<char> {
    "["@ + origin + "] "@ + message
}

/// What is written for a record of the module `origin`, and through which
/// channel; `None` when the module is the muted one or the record is less
/// severe than `max` allows.
pub open spec fn written(origin: Seq<char>, level: Level, max: LevelFilter, message: Seq<char>)
    -> Option<(Console, Seq<char>)> {
    if origin == muted_module() || rank(level) > limit(max) {
        None
    } else {
        Some((channel_of(level), line_of(origin, message)))
    }
}

/// Whether records of `level` are written under the filter `max`.
pub fn enabled(level: Level, max: LevelFilter) -> (b: bool)
    ensures
        b == (rank(level) <= limit(max)),
{
    let severity: u8 = match level {
        Level::Error => 1,
        Level::Warn => 2,
        Level::Info => 3,
        Level::Debug => 4,
        Level::Trace => 5,
    };
    let most: u8 = match max {
        LevelFilter::Off => 0,
        LevelFilter::Error => 1,
        LevelFilter::Warn => 2,
        LevelFilter::Info => 3,
        LevelFilter::Debug => 4,
        LevelFilter::Trace => 5,
    };
    severity <= most
}

/// The filter to install so that records of `level` and more severe ones
/// are written.
pub fn init_with_level(level: Level) -> (filter: LevelFilter)
    ensures
        filter == filter_of(level),
        forall|l: Level| rank(l) <= limit(filter) <==> rank(l) <= rank(level),
{
    match level {
        Level::Error => LevelFilter::Error,
        Level::Warn => LevelFilter::Warn,
        Level::Info => LevelFilter::Info,
        Level::Debug => LevelFilter::Debug,
        Level::Trace => LevelFilter::Trace,
    }
}

/// What the logger writes for a record of the module `origin`, see
/// [`written`]. `origin` is empty for a record that names no module.
pub fn log(origin: &str, level: Level, max: LevelFilter, message: &str) -> (out: Option<
    (Console, String),
>)
    ensures
        written(origin@, level, max, message@) == match out {
            Some(pair) => Some((pair.0, pair.1@)),
            None => None,
        },
{
    let muted = String::from_str("html5ever::serialize");
    let module = String::from_str(origin);
    if module == muted || !enabled(level, max) {
        return None;
    }
    let console = match level {
        Level::Error => Console::Error,
        Level::Warn => Console::Warn,
        Level::Info => Console::Info,
        Level::Debug => Console::Log,
        Level::Trace => Console::Debug,
    };
    let mut line = String::from_str("[");
    line.append(origin);
    line.append("] ");
    line.append(message);
    Some((console, line))
}

} // verus!
