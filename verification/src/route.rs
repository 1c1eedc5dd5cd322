//! The routing rule: which sinks an envelope's level sends it to.

use vstd::prelude::*;
use crate::enums::LogLevel;

verus! {

/// One of the two console streams.
#[derive(Clone, Copy, Debug, PartialEq, Eq, Structural)]
pub enum ConsoleSink {
    Stdout,
    Stderr,
}

/// Where one envelope goes: at most one console stream, and the file or not.
#[derive(Clone, Copy, Debug, PartialEq, Eq, Structural)]
pub struct Route {
    /// The console stream that gets the line, if any does.
    pub console: Option<ConsoleSink>,
    /// Whether the file gets a line.
    pub file: bool,
}

/// The console stream for a level: standard error from `Error` up whatever
/// `level_stdout` is, else standard output from `level_stdout` up, else none.
pub open spec fn console_target(level: LogLevel, level_stdout: LogLevel) -> Option<ConsoleSink> {
    if level.at_least(LogLevel::Error) {
        Some(ConsoleSink::Stderr)
    } else if level.at_least(level_stdout) {
        Some(ConsoleSink::Stdout)
    } else {
        None
    }
}

/// Whether the file gets a line: there is a file, and the level reaches `level_file`.
pub open spec fn file_target(level: LogLevel, level_file: LogLevel, has_file: bool) -> bool {
    has_file && level.at_least(level_file)
}

/// Decides the sinks of an envelope from its level and the configured minimum levels.
/// The console and the file are decided independently of each other.
pub fn route(
    level: LogLevel,
    level_stdout: LogLevel,
    level_file: LogLevel,
    has_file: bool,
) -> (r: Route)
    ensures
        r.console == console_target(level, level_stdout),
        r.file == file_target(level, level_file, has_file),
        level.at_least(LogLevel::Error) ==> r.console == Some(ConsoleSink::Stderr),
        !level.at_least(LogLevel::Error) && !level.at_least(level_stdout) ==> r.console is None,
        r.file <==> has_file && level.at_least(level_file),
{
    let console = if level.is_at_least(LogLevel::Error) {
        Some(ConsoleSink::Stderr)
    } else if level.is_at_least(level_stdout) {
        Some(ConsoleSink::Stdout)
    } else {
        None
    };
    let file = has_file && level.is_at_least(level_file);
    Route { console, file }
}

} // verus!
