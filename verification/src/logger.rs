//! The service's log: which records are written and how a line reads.
use vstd::prelude::*;

verus! {

/// The severity of a record, from the most severe to the least.
#[derive(Debug, Clone, Copy, PartialEq, Eq, Structural)]
pub enum LogLevel {
    Error,
    Warn,
    Info,
    Debug,
    Trace,
}

/// The rank of a level: more severe levels rank lower.
pub open spec fn rank(level: LogLevel) -> int {
    match level {
        LogLevel::Error => 1,
        LogLevel::Warn => 2,
        LogLevel::Info => 3,
        LogLevel::Debug => 4,
        LogLevel::Trace => 5,
    }
}

/// How a level is written in a line.
pub open spec fn level_name(level: LogLevel) -> Seq<char> {
    match level {
        LogLevel::Error => "ERROR"@,
        LogLevel::Warn => "WARN"@,
        LogLevel::Info => "INFO"@,
        LogLevel::Debug => "DEBUG"@,
        LogLevel::Trace => "TRACE"@,
    }
}

/// A line of the log: time, level, name of the service and message, each
/// separated by a space.
pub open spec fn log_line(stamp: Seq<char>, level: LogLevel, name: Seq<char>, message: Seq<char>) -> Seq<char> {
    stamp + " "@ + level_name(level) + " "@ + name + " "@ + message
}

impl LogLevel {
    /// The level's name as it appears in a line.
    pub fn as_str(&self) -> (res: &'static str)
        ensures
            res@ == level_name(*self),
    {
        match self {
            LogLevel::Error => {
                proof {
                    reveal_strlit("ERROR");
                }
                "ERROR"
            },
            LogLevel::Warn => {
                proof {
                    reveal_strlit("WARN");
                }
                "WARN"
            },
            LogLevel::Info => {
                proof {
                    reveal_strlit("INFO");
                }
                "INFO"
            },
            LogLevel::Debug => {
                proof {
                    reveal_strlit("DEBUG");
                }
                "DEBUG"
            },
            LogLevel::Trace => {
                proof {
                    reveal_strlit("TRACE");
                }
                "TRACE"
            },
        }
    }
}

/// The log of one service, named in each of its lines.
#[derive(Debug)]
pub struct Logger {
    pub name: String,
}

impl Logger {
    /// The log of the service `name`.
    pub fn named(name: &str) -> (res: Logger)
        ensures
            res.name@ == name@,
    {
        Logger { name: name.to_owned() }
    }

    /// Records up to debug level are written; trace records are not.
    pub fn enabled(&self, level: LogLevel) -> (res: bool)
        ensures
            res == (rank(level) <= rank(LogLevel::Debug)),
    {
        match level {
            LogLevel::Trace => false,
            _ => true,
        }
    }

    /// The line written for a record, `None` when its level is not written.
    pub fn line(&self, stamp: &str, level: LogLevel, message: &str) -> (res: Option<String>)
        ensures
            match res {
                Some(l) => rank(level) <= rank(LogLevel::Debug) && l@ == log_line(
                    stamp@,
                    level,
                    self.name@,
                    message@,
                ),
                None => rank(level) > rank(LogLevel::Debug),
            },
    {
        if !self.enabled(level) {
            return None;
        }
        let mut l = String::from_str(stamp);
        l.append(" ");
        l.append(level.as_str());
        l.append(" ");
        l.append(self.name.as_str());
        l.append(" ");
        l.append(message);
        proof {
            reveal_strlit(" ");
        }
        assert(l@ =~= log_line(stamp@, level, self.name@, message@));
        Some(l)
    }
}

} // verus!
