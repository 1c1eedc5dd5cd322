//! The producer-facing handle: it builds envelopes and hands them to the channel.

use vstd::prelude::*;
use std::sync::mpsc::Sender;
use crate::consumer::Consumer;
use crate::enums::{LogColor, LogLevel};
use crate::message::{Envelope, LogMessage};
use crate::rate::RateLimiter;

verus! {

/// The sending half of std's channel, carried through as an opaque value.
#[verifier::external_type_specification]
#[verifier::external_body]
#[verifier::reject_recursive_types(T)]
pub struct ExSender<T>(Sender<T>);

/// A handoff that failed because the consumer is gone. It gives the envelope back.
#[derive(Clone, Debug)]
pub struct SendFailure {
    /// The envelope that could not be handed off.
    pub message: LogMessage,
}

/// Calls `std::sync::mpsc::Sender::send` and, where it fails, takes the value
/// out of the `SendError`.
///
/// Believed, not proved: a failed send hands back the very value it was given.
/// Whether the send succeeds depends on whether the receiving half still
/// exists, so nothing is said of that.
#[verifier::external_body]
fn channel_send(tx: &Sender<LogMessage>, message: LogMessage) -> (r: Result<(), LogMessage>)
    ensures
        r is Err ==> r->Err_0 == message,
{
    tx.send(message).map_err(|e| e.0)
}

/// The result of a producer call, given what the channel answered.
pub fn send_outcome(sent: Result<(), LogMessage>) -> (r: Result<(), SendFailure>)
    ensures
        sent is Ok <==> r is Ok,
        sent is Err ==> r->Err_0.message == sent->Err_0,
{
    match sent {
        Ok(()) => Ok(()),
        Err(message) => Err(SendFailure { message }),
    }
}

/// The handle that application code logs through.
pub struct Logger {
    /// The sending half of the channel to the consumer.
    pub tx: Sender<LogMessage>,
    /// The trader ID for the logger.
    pub trader_id: String,
    /// The machine ID for the logger.
    pub machine_id: String,
    /// The instance ID for the logger.
    pub instance_id: String,
    /// The minimum log level to write to stdout.
    pub level_stdout: LogLevel,
    /// The minimum log level to write to a log file.
    pub level_file: LogLevel,
    /// The maximum messages per second which can be flushed to stdout or stderr.
    pub rate_limit: usize,
    /// If logging is bypassed.
    pub is_bypassed: bool,
}

impl Logger {
    /// The envelope that a call hands to the channel: none when the logger is
    /// bypassed, else one that carries the call's arguments unchanged.
    pub open spec fn envelope_of(
        &self,
        timestamp_ns: u64,
        level: LogLevel,
        color: LogColor,
        component: Seq<char>,
        msg: Seq<char>,
    ) -> Option<Envelope> {
        if self.is_bypassed {
            None
        } else {
            Some(Envelope { timestamp_ns, level, color, component, msg })
        }
    }

    /// A handle that sends on `tx`. The consumer that reads the other half of
    /// the channel gets its configuration from [`Logger::consumer`].
    pub fn new(
        trader_id: String,
        machine_id: String,
        instance_id: String,
        level_stdout: LogLevel,
        level_file: LogLevel,
        rate_limit: usize,
        is_bypassed: bool,
        tx: Sender<LogMessage>,
    ) -> (r: Logger)
        ensures
            r.trader_id@ == trader_id@,
            r.machine_id@ == machine_id@,
            r.instance_id@ == instance_id@,
            r.level_stdout == level_stdout,
            r.level_file == level_file,
            r.rate_limit == rate_limit,
            r.is_bypassed == is_bypassed,
    {
        Logger {
            tx,
            trader_id,
            machine_id,
            instance_id,
            level_stdout,
            level_file,
            rate_limit,
            is_bypassed,
        }
    }

    /// The consumer's copy of the configuration: the trader identifier, the two
    /// minimum levels and a rate limiter with an empty window that starts at `now_ns`.
    pub fn consumer(&self, has_file: bool, now_ns: u64) -> (c: Consumer)
        ensures
            c.trader_id@ == self.trader_id@,
            c.level_stdout == self.level_stdout,
            c.level_file == self.level_file,
            c.has_file == has_file,
            c.limiter == (RateLimiter { limit: self.rate_limit, count: 0, window_start_ns: now_ns }),
            c.wf(),
    {
        Consumer::new(
            self.trader_id.clone(),
            self.level_stdout,
            self.level_file,
            has_file,
            self.rate_limit,
            now_ns,
        )
    }

    /// Builds the envelope for one call, unless the logger is bypassed.
    pub fn envelope(
        &self,
        timestamp_ns: u64,
        level: LogLevel,
        color: LogColor,
        component: String,
        msg: String,
    ) -> (r: Option<LogMessage>)
        ensures
            r is None <==> self.is_bypassed,
            match r {
                Some(m) => Some(m@),
                None => None,
            } == self.envelope_of(timestamp_ns, level, color, component@, msg@),
    {
        if self.is_bypassed {
            None
        } else {
            Some(LogMessage::new(timestamp_ns, level, color, component, msg))
        }
    }

    /// Hands one event to the channel. A bypassed logger does nothing and
    /// reports success. Otherwise the call fails only when the channel refuses
    /// the envelope, and the failure gives that envelope back.
    pub fn send(
        &mut self,
        timestamp_ns: u64,
        level: LogLevel,
        color: LogColor,
        component: String,
        msg: String,
    ) -> (r: Result<(), SendFailure>)
        ensures
            old(self).is_bypassed ==> r is Ok,
            r is Err ==> Some(r->Err_0.message@) == old(self).envelope_of(
                timestamp_ns,
                level,
                color,
                component@,
                msg@,
            ),
            *final(self) == *old(self),
    {
        match self.envelope(timestamp_ns, level, color, component, msg) {
            None => Ok(()),
            Some(message) => send_outcome(channel_send(&self.tx, message)),
        }
    }

    /// Logs at `Debug`.
    pub fn debug(
        &mut self,
        timestamp_ns: u64,
        color: LogColor,
        component: String,
        msg: String,
    ) -> (r: Result<(), SendFailure>)
        ensures
            old(self).is_bypassed ==> r is Ok,
            r is Err ==> Some(r->Err_0.message@) == old(self).envelope_of(
                timestamp_ns,
                LogLevel::Debug,
                color,
                component@,
                msg@,
            ),
            *final(self) == *old(self),
    {
        self.send(timestamp_ns, LogLevel::Debug, color, component, msg)
    }

    /// Logs at `Info`.
    pub fn info(
        &mut self,
        timestamp_ns: u64,
        color: LogColor,
        component: String,
        msg: String,
    ) -> (r: Result<(), SendFailure>)
        ensures
            old(self).is_bypassed ==> r is Ok,
            r is Err ==> Some(r->Err_0.message@) == old(self).envelope_of(
                timestamp_ns,
                LogLevel::Info,
                color,
                component@,
                msg@,
            ),
            *final(self) == *old(self),
    {
        self.send(timestamp_ns, LogLevel::Info, color, component, msg)
    }

    /// Logs at `Warning`.
    pub fn warn(
        &mut self,
        timestamp_ns: u64,
        color: LogColor,
        component: String,
        msg: String,
    ) -> (r: Result<(), SendFailure>)
        ensures
            old(self).is_bypassed ==> r is Ok,
            r is Err ==> Some(r->Err_0.message@) == old(self).envelope_of(
                timestamp_ns,
                LogLevel::Warning,
                color,
                component@,
                msg@,
            ),
            *final(self) == *old(self),
    {
        self.send(timestamp_ns, LogLevel::Warning, color, component, msg)
    }

    /// Logs at `Error`.
    pub fn error(
        &mut self,
        timestamp_ns: u64,
        color: LogColor,
        component: String,
        msg: String,
    ) -> (r: Result<(), SendFailure>)
        ensures
            old(self).is_bypassed ==> r is Ok,
            r is Err ==> Some(r->Err_0.message@) == old(self).envelope_of(
                timestamp_ns,
                LogLevel::Error,
                color,
                component@,
                msg@,
            ),
            *final(self) == *old(self),
    {
        self.send(timestamp_ns, LogLevel::Error, color, component, msg)
    }

    /// Logs at `Critical`.
    pub fn critical(
        &mut self,
        timestamp_ns: u64,
        color: LogColor,
        component: String,
        msg: String,
    ) -> (r: Result<(), SendFailure>)
        ensures
            old(self).is_bypassed ==> r is Ok,
            r is Err ==> Some(r->Err_0.message@) == old(self).envelope_of(
                timestamp_ns,
                LogLevel::Critical,
                color,
                component@,
                msg@,
            ),
            *final(self) == *old(self),
    {
        self.send(timestamp_ns, LogLevel::Critical, color, component, msg)
    }
}

} // verus!
