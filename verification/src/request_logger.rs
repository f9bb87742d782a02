//! What the request log says of a response.

use vstd::prelude::*;

verus! {

/// The severity of a log record.
#[derive(Clone, Copy, Debug, PartialEq, Eq, Structural)]
pub enum Level {
    Error,
    Warning,
    Info,
}

/// The severity with which a response with the given status is logged:
/// server errors as errors, client errors as warnings, all others as
/// information.
pub open spec fn level_of(status: u16) -> Level {
    if 500 <= status < 600 {
        Level::Error
    } else if 400 <= status < 500 {
        Level::Warning
    } else {
        Level::Info
    }
}

/// Logs every request together with its response.
#[derive(Debug, Default, Clone)]
pub struct LogMiddleware {}

impl LogMiddleware {
    pub fn new() -> (res: LogMiddleware)
        ensures
            res == (LogMiddleware {  }),
    {
        LogMiddleware {  }
    }

    /// The severity with which a response with the given status is logged.
    pub fn level(&self, status: u16) -> (level: Level)
        ensures
            level == level_of(status),
    {
        if 500 <= status && status < 600 {
            Level::Error
        } else if 400 <= status && status < 500 {
            Level::Warning
        } else {
            Level::Info
        }
    }

    /// Whether the body of a request is logged: that of every request but a
    /// GET, which has none.
    pub fn logs_body(&self, is_get: bool) -> (logs: bool)
        ensures
            logs == !is_get,
    {
        !is_get
    }
}

} // verus!
