//! The message envelope: one log event on its way from a producer to the consumer.

use vstd::prelude::*;
use crate::enums::{LogColor, LogLevel};

verus! {

/// One log event. It is built once by a producer call and read once by the consumer.
#[derive(Clone, Debug)]
pub struct LogMessage {
    /// Nanoseconds since the UNIX epoch, as the caller gave them.
    pub timestamp_ns: u64,
    /// The severity of the event.
    pub level: LogLevel,
    /// The colour hint for console rendering.
    pub color: LogColor,
    /// The name of the subsystem the event comes from.
    pub component: String,
    /// The message body, already rendered by the caller.
    pub msg: String,
}

/// What a [`LogMessage`] holds, as plain mathematical values.
pub struct Envelope {
    pub timestamp_ns: u64,
    pub level: LogLevel,
    pub color: LogColor,
    pub component: Seq<char>,
    pub msg: Seq<char>,
}

impl View for LogMessage {
    type V = Envelope;

    open spec fn view(&self) -> Envelope {
        Envelope {
            timestamp_ns: self.timestamp_ns,
            level: self.level,
            color: self.color,
            component: self.component@,
            msg: self.msg@,
        }
    }
}

impl LogMessage {
    /// Builds the envelope of one event.
    pub fn new(
        timestamp_ns: u64,
        level: LogLevel,
        color: LogColor,
        component: String,
        msg: String,
    ) -> (r: LogMessage)
        ensures
            r@ == (Envelope {
                timestamp_ns,
                level,
                color,
                component: component@,
                msg: msg@,
            }),
    {
        LogMessage { timestamp_ns, level, color, component, msg }
    }
}

} // verus!
