use vstd::prelude::*;

verus! {

/// The severity of a log record, most severe first.
#[derive(PartialEq, Eq, Structural, Debug, Clone, Copy)]
pub enum LogLevel {
    Error,
    Warn,
    Info,
    Debug,
    Trace,
}

/// The rank of a level: 1 for errors up to 5 for traces.
pub open spec fn level_rank(level: LogLevel) -> int {
    match level {
        LogLevel::Error => 1,
        LogLevel::Warn => 2,
        LogLevel::Info => 3,
        LogLevel::Debug => 4,
        LogLevel::Trace => 5,
    }
}

/// The label printed for a level, five characters wide.
pub open spec fn level_label(level: LogLevel) -> Seq<char> {
    match level {
        LogLevel::Error => "ERROR"@,
        LogLevel::Warn => "WARN "@,
        LogLevel::Info => "INFO "@,
        LogLevel::Debug => "DEBUG"@,
        LogLevel::Trace => "TRACE"@,
    }
}

/// The text of a printed record: `[LABEL] module: message`, with `unknown`
/// for a record without module.
pub open spec fn record_text(level: LogLevel, module: Option<&str>, message: &str) -> Seq<char> {
    "["@ + level_label(level) + "] "@ + (match module {
        Some(m) => m@,
        None => "unknown"@,
    }) + ": "@ + message@
}

/// Whether records of `level` are printed: those at most as verbose as
/// `Info`.
pub fn enabled(level: LogLevel) -> (r: bool)
    ensures
        r == (level_rank(level) <= level_rank(LogLevel::Info)),
{
    match level {
        LogLevel::Error | LogLevel::Warn | LogLevel::Info => true,
        _ => false,
    }
}

/// The label of `level`.
pub fn level_str(level: LogLevel) -> (s: &'static str)
    ensures
        s@ == level_label(level),
{
    match level {
        LogLevel::Error => "ERROR",
        LogLevel::Warn => "WARN ",
        LogLevel::Info => "INFO ",
        LogLevel::Debug => "DEBUG",
        LogLevel::Trace => "TRACE",
    }
}

/// The line printed for a record: `[LABEL] module: message`, with
/// `unknown` for a record without module; no line for a record that is
/// too verbose.
pub fn log_line(level: LogLevel, module: Option<&str>, message: &str) -> (line: Option<String>)
    ensures
        !(level_rank(level) <= level_rank(LogLevel::Info)) ==> line is None,
        level_rank(level) <= level_rank(LogLevel::Info) ==> (line matches Some(l) && l@ == record_text(level, module, message)),
{
    if !enabled(level) {
        return None;
    }
    let module_name = match module {
        Some(m) => m,
        None => "unknown",
    };
    let mut line = String::from_str("[");
    line.append(level_str(level));
    line.append("] ");
    line.append(module_name);
    line.append(": ");
    line.append(message);
    Some(line)
}

} // verus!
