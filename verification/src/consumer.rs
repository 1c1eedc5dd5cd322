//! The consumer's decisions for one envelope: which sinks get a line, what
//! each line reads, and whether the console rate limit admits a line now.
//!
//! The consumer itself is a loop around these: it takes envelopes off the
//! channel one at a time, in the order in which they arrive, and hands each to
//! [`Consumer::handle_message`] with a reading of its clock. It writes and
//! flushes what comes back before it takes the next envelope; when it is told
//! to wait, it pauses and hands the same envelope in again.

use vstd::prelude::*;
use crate::enums::LogLevel;
use crate::format::{console_line_of, file_line_of, format_log_line_console, format_log_line_file};
use crate::message::LogMessage;
use crate::rate::{RateLimiter, Throttle};
use crate::route::{console_target, file_target, route, ConsoleSink};

verus! {

/// A formatted line bound for one of the console streams.
#[derive(Clone, Debug)]
pub struct ConsoleLine {
    pub sink: ConsoleSink,
    pub line: String,
}

/// What is to be written for one envelope.
#[derive(Clone, Debug)]
pub struct Dispatch {
    /// The console line, which must pass the rate limiter before it is written.
    pub console: Option<ConsoleLine>,
    /// The file line, which is written without asking the rate limiter.
    pub file: Option<String>,
}

/// The consumer's answer to one envelope at one clock reading.
#[derive(Clone, Debug)]
pub enum Step {
    /// The console window is full: pause, then hand the same envelope in again.
    Wait,
    /// Write and flush these lines now, the console line first.
    Write(Dispatch),
}

/// A [`Dispatch`] as plain mathematical values.
pub struct DispatchView {
    pub console: Option<(ConsoleSink, Seq<char>)>,
    pub file: Option<Seq<char>>,
}

impl View for Dispatch {
    type V = DispatchView;

    open spec fn view(&self) -> DispatchView {
        DispatchView {
            console: match self.console {
                Some(c) => Some((c.sink, c.line@)),
                None => None,
            },
            file: match self.file {
                Some(l) => Some(l@),
                None => None,
            },
        }
    }
}

/// What the consumer keeps from the logger's configuration, and its rate limiter.
#[derive(Clone, Debug)]
pub struct Consumer {
    /// The trader identifier stamped into every line.
    pub trader_id: String,
    /// The minimum level for standard output.
    pub level_stdout: LogLevel,
    /// The minimum level for the log file.
    pub level_file: LogLevel,
    /// Whether a log file is configured.
    pub has_file: bool,
    /// The limiter that console lines pass through.
    pub limiter: RateLimiter,
}

impl Consumer {
    /// The limiter's counter is within its limit.
    pub open spec fn wf(&self) -> bool {
        self.limiter.wf()
    }

    /// What is written for `log_msg`: the console part and the file part are
    /// decided independently, so one envelope may give a line to both.
    pub open spec fn dispatch_of(&self, log_msg: &LogMessage) -> DispatchView {
        DispatchView {
            console: match console_target(log_msg.level, self.level_stdout) {
                Some(sink) => Some((sink, console_line_of(log_msg, self.trader_id@))),
                None => None,
            },
            file: if file_target(log_msg.level, self.level_file, self.has_file) {
                Some(file_line_of(log_msg, self.trader_id@))
            } else {
                None
            },
        }
    }

    /// A consumer with an empty rate window that starts at `now_ns`.
    pub fn new(
        trader_id: String,
        level_stdout: LogLevel,
        level_file: LogLevel,
        has_file: bool,
        rate_limit: usize,
        now_ns: u64,
    ) -> (r: Consumer)
        ensures
            r.trader_id@ == trader_id@,
            r.level_stdout == level_stdout,
            r.level_file == level_file,
            r.has_file == has_file,
            r.limiter == (RateLimiter { limit: rate_limit, count: 0, window_start_ns: now_ns }),
            r.wf(),
    {
        Consumer {
            trader_id,
            level_stdout,
            level_file,
            has_file,
            limiter: RateLimiter::new(rate_limit, now_ns),
        }
    }

    /// Whether an envelope of this level has a console line, and so has to
    /// pass the rate limiter.
    pub open spec fn needs_console(&self, level: LogLevel) -> bool {
        console_target(level, self.level_stdout) is Some
    }

    /// Whether an envelope of this level is held back at `now_ns`: it has a
    /// console line, and the limiter does not admit one.
    pub open spec fn holds_back(&self, level: LogLevel, now_ns: u64) -> bool {
        self.needs_console(level) && !self.limiter.admits(now_ns)
    }

    /// The limiter after an envelope of this level was handled at `now_ns`:
    /// asked once for an envelope with a console line, left alone otherwise.
    pub open spec fn limiter_after(&self, level: LogLevel, now_ns: u64) -> RateLimiter {
        if self.needs_console(level) {
            self.limiter.after(now_ns)
        } else {
            self.limiter
        }
    }

    /// Decides and formats what is written for one envelope, without asking
    /// the rate limiter.
    ///
    /// From `Error` up the console line goes to standard error and never to
    /// standard output, whatever `level_stdout` is. Below `Error` and below
    /// `level_stdout` there is no console line. With a file configured, a level
    /// that reaches `level_file` gives exactly one file line, whatever the
    /// console part is; without a file there is none.
    pub fn dispatch(&self, log_msg: &LogMessage) -> (d: Dispatch)
        ensures
            d@ == self.dispatch_of(log_msg),
            log_msg.level.at_least(LogLevel::Error) ==> d@.console == Some(
                (ConsoleSink::Stderr, console_line_of(log_msg, self.trader_id@)),
            ),
            !log_msg.level.at_least(LogLevel::Error) && !log_msg.level.at_least(self.level_stdout)
                ==> d@.console is None,
            self.has_file && log_msg.level.at_least(self.level_file) ==> d@.file == Some(
                file_line_of(log_msg, self.trader_id@),
            ),
            !self.has_file ==> d@.file is None,
    {
        let r = route(log_msg.level, self.level_stdout, self.level_file, self.has_file);
        let console = match r.console {
            Some(sink) => Some(
                ConsoleLine { sink, line: format_log_line_console(log_msg, self.trader_id.as_str()) },
            ),
            None => None,
        };
        let file = if r.file {
            Some(format_log_line_file(log_msg, self.trader_id.as_str()))
        } else {
            None
        };
        Dispatch { console, file }
    }

    /// Handles one envelope at clock reading `now_ns`.
    ///
    /// An envelope with a console line asks the rate limiter once. If the
    /// limiter admits the line, the answer holds every line of the envelope;
    /// if not, the answer is `Wait`, and while the window is not over nothing
    /// has changed. An envelope without a console line never waits and leaves
    /// the limiter alone: file lines are not rate limited.
    pub fn handle_message(&mut self, log_msg: &LogMessage, now_ns: u64) -> (r: Step)
        requires
            old(self).wf(),
        ensures
            r is Wait <==> old(self).holds_back(log_msg.level, now_ns),
            r is Write ==> r->Write_0@ == old(self).dispatch_of(log_msg),
            final(self).limiter == old(self).limiter_after(log_msg.level, now_ns),
            r is Wait && !old(self).limiter.window_over(now_ns) ==> final(self).limiter == old(
                self,
            ).limiter,
            final(self).wf(),
            final(self).trader_id == old(self).trader_id,
            final(self).level_stdout == old(self).level_stdout,
            final(self).level_file == old(self).level_file,
            final(self).has_file == old(self).has_file,
    {
        let r = route(log_msg.level, self.level_stdout, self.level_file, self.has_file);
        if r.console.is_some() {
            match self.limiter.poll(now_ns) {
                Throttle::Wait => {
                    return Step::Wait;
                },
                Throttle::Emit => {},
            }
        }
        Step::Write(self.dispatch(log_msg))
    }
}

/// The number of console lines written when envelopes of the levels `levels`
/// are handed in, one attempt each, at the clock readings `times`.
pub open spec fn console_lines(
    level_stdout: LogLevel,
    limiter: RateLimiter,
    levels: Seq<LogLevel>,
    times: Seq<u64>,
) -> nat
    recommends
        levels.len() == times.len(),
    decreases levels.len(),
{
    if levels.len() == 0 || times.len() == 0 {
        0
    } else if console_target(levels[0], level_stdout) is Some {
        let here: nat = if limiter.admits(times[0]) { 1 } else { 0 };
        here + console_lines(
            level_stdout,
            limiter.after(times[0]),
            levels.subrange(1, levels.len() as int),
            times.subrange(1, times.len() as int),
        )
    } else {
        console_lines(
            level_stdout,
            limiter,
            levels.subrange(1, levels.len() as int),
            times.subrange(1, times.len() as int),
        )
    }
}

/// Whatever mix of levels a burst holds, the console lines written before the
/// window is over, together with those the window already held, never pass
/// the limit.
pub proof fn lemma_console_burst_within_limit(
    level_stdout: LogLevel,
    limiter: RateLimiter,
    levels: Seq<LogLevel>,
    times: Seq<u64>,
)
    requires
        limiter.wf(),
        levels.len() == times.len(),
        forall|i: int| 0 <= i < times.len() ==> !limiter.window_over(#[trigger] times[i]),
    ensures
        limiter.count + console_lines(level_stdout, limiter, levels, times) <= limiter.limit,
    decreases levels.len(),
{
    if levels.len() > 0 {
        let rest_levels = levels.subrange(1, levels.len() as int);
        let rest_times = times.subrange(1, times.len() as int);
        assert(!limiter.window_over(times[0]));
        let next = if console_target(levels[0], level_stdout) is Some {
            limiter.after(times[0])
        } else {
            limiter
        };
        assert(next.window_start_ns == limiter.window_start_ns);
        assert forall|i: int| 0 <= i < rest_times.len() implies !next.window_over(
            #[trigger] rest_times[i],
        ) by {
            assert(rest_times[i] == times[i + 1]);
        }
        lemma_console_burst_within_limit(level_stdout, next, rest_levels, rest_times);
    }
}

} // verus!
