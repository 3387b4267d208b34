use vstd::prelude::*;
use crate::spans::Color;

verus! {

/// The importance of a log record.
#[derive(Clone, Copy, Debug, PartialEq, Eq, Structural)]
pub enum LogLevel {
    Error,
    Warn,
    Info,
    Debug,
    Trace,
}

/// The panel that shows the application's log.
#[derive(Clone, Copy, Debug, PartialEq, Eq, Structural)]
pub struct LogComponent;

impl LogComponent {
    /// The colour in which the log panel writes a record: errors red,
    /// warnings yellow, information green, the rest in the default colour.
    pub fn level_color(&self, level: LogLevel) -> (r: Option<Color>)
        ensures
            r == match level {
                LogLevel::Error => Some(Color::Red),
                LogLevel::Warn => Some(Color::Yellow),
                LogLevel::Info => Some(Color::Green),
                _ => None,
            },
    {
        match level {
            LogLevel::Error => Some(Color::Red),
            LogLevel::Warn => Some(Color::Yellow),
            LogLevel::Info => Some(Color::Green),
            _ => None,
        }
    }

    /// The title of the log panel.
    pub fn title(&self) -> (r: String)
        ensures
            r@ == "log"@,
    {
        String::from_str("log")
    }
}

/// A view that shows nothing and answers nothing.
#[derive(Clone, Copy, Debug, PartialEq, Eq, Structural)]
pub struct NoopComponent;

} // verus!
