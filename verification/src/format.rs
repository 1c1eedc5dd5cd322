//! The two line templates: one for the console, one for the log file.

use vstd::prelude::*;
use vstd::string::StringExecFns;
use crate::enums::{LogColor, LogLevel};
use crate::message::LogMessage;
use crate::timestamp::{iso8601, unix_nanos_to_iso8601};

verus! {

/// The console line: the timestamp in bold, then the colour, the level tag in
/// square brackets, `trader_id.component: msg`, a style reset and a newline.
pub open spec fn console_line(
    ts: Seq<char>,
    color: LogColor,
    level: LogLevel,
    trader_id: Seq<char>,
    component: Seq<char>,
    msg: Seq<char>,
) -> Seq<char> {
    "\x1b[1m"@ + ts + "\x1b[0m "@ + color.code() + "["@ + level.tag() + "] "@ + trader_id + "."@
        + component + ": "@ + msg + "\x1b[0m\n"@
}

/// The file line: the console line without any escape sequence.
pub open spec fn file_line(
    ts: Seq<char>,
    level: LogLevel,
    trader_id: Seq<char>,
    component: Seq<char>,
    msg: Seq<char>,
) -> Seq<char> {
    ts + " ["@ + level.tag() + "] "@ + trader_id + "."@ + component + ": "@ + msg + "\n"@
}

/// Fills the console template with a timestamp that is already rendered.
pub fn render_console_line(
    ts: &str,
    color: LogColor,
    level: LogLevel,
    trader_id: &str,
    component: &str,
    msg: &str,
) -> (line: String)
    ensures
        line@ == console_line(ts@, color, level, trader_id@, component@, msg@),
{
    let mut line = String::from_str("\x1b[1m");
    line.append(ts);
    line.append("\x1b[0m ");
    line.append(color.as_code());
    line.append("[");
    line.append(level.as_tag());
    line.append("] ");
    line.append(trader_id);
    line.append(".");
    line.append(component);
    line.append(": ");
    line.append(msg);
    line.append("\x1b[0m\n");
    line
}

/// Fills the file template with a timestamp that is already rendered.
pub fn render_file_line(
    ts: &str,
    level: LogLevel,
    trader_id: &str,
    component: &str,
    msg: &str,
) -> (line: String)
    ensures
        line@ == file_line(ts@, level, trader_id@, component@, msg@),
{
    let mut line = String::from_str(ts);
    line.append(" [");
    line.append(level.as_tag());
    line.append("] ");
    line.append(trader_id);
    line.append(".");
    line.append(component);
    line.append(": ");
    line.append(msg);
    line.append("\n");
    line
}

/// The console line of an envelope, its timestamp rendered as ISO 8601.
pub open spec fn console_line_of(log_msg: &LogMessage, trader_id: Seq<char>) -> Seq<char> {
    console_line(
        iso8601(log_msg.timestamp_ns),
        log_msg.color,
        log_msg.level,
        trader_id,
        log_msg.component@,
        log_msg.msg@,
    )
}

/// The file line of an envelope, its timestamp rendered as ISO 8601.
pub open spec fn file_line_of(log_msg: &LogMessage, trader_id: Seq<char>) -> Seq<char> {
    file_line(
        iso8601(log_msg.timestamp_ns),
        log_msg.level,
        trader_id,
        log_msg.component@,
        log_msg.msg@,
    )
}

/// Formats an envelope for the console.
pub fn format_log_line_console(log_msg: &LogMessage, trader_id: &str) -> (line: String)
    ensures
        line@ == console_line_of(log_msg, trader_id@),
{
    let ts = unix_nanos_to_iso8601(log_msg.timestamp_ns);
    render_console_line(
        ts.as_str(),
        log_msg.color,
        log_msg.level,
        trader_id,
        log_msg.component.as_str(),
        log_msg.msg.as_str(),
    )
}

/// Formats an envelope for the log file.
pub fn format_log_line_file(log_msg: &LogMessage, trader_id: &str) -> (line: String)
    ensures
        line@ == file_line_of(log_msg, trader_id@),
{
    let ts = unix_nanos_to_iso8601(log_msg.timestamp_ns);
    render_file_line(
        ts.as_str(),
        log_msg.level,
        trader_id,
        log_msg.component.as_str(),
        log_msg.msg.as_str(),
    )
}

/// A file line carries no escape character when none of its parts does: the
/// file template adds none of its own.
pub proof fn lemma_file_line_plain(
    ts: Seq<char>,
    level: LogLevel,
    trader_id: Seq<char>,
    component: Seq<char>,
    msg: Seq<char>,
)
    requires
        !ts.contains('\x1b'),
        !trader_id.contains('\x1b'),
        !component.contains('\x1b'),
        !msg.contains('\x1b'),
    ensures
        !file_line(ts, level, trader_id, component, msg).contains('\x1b'),
{
    reveal_strlit(" [");
    reveal_strlit("] ");
    reveal_strlit(".");
    reveal_strlit(": ");
    reveal_strlit("\n");
    reveal_strlit("DBG");
    reveal_strlit("INF");
    reveal_strlit("WRN");
    reveal_strlit("ERR");
    reveal_strlit("CRT");
    let line = file_line(ts, level, trader_id, component, msg);
    let tag = level.tag();
    assert(!tag.contains('\x1b')) by {
        if tag.contains('\x1b') {
            let i = choose|i: int| 0 <= i < tag.len() && tag[i] == '\x1b';
            assert(tag[i] == '\x1b');
        }
    }
    if line.contains('\x1b') {
        let i = choose|i: int| 0 <= i < line.len() && line[i] == '\x1b';
        let a = ts + " ["@;
        let b = a + tag;
        let c = b + "] "@;
        let d = c + trader_id;
        let e = d + "."@;
        let f = e + component;
        let g = f + ": "@;
        let h = g + msg;
        assert(line == h + "\n"@);
        lemma_concat_plain(ts, " ["@);
        lemma_concat_plain(a, tag);
        lemma_concat_plain(b, "] "@);
        lemma_concat_plain(c, trader_id);
        lemma_concat_plain(d, "."@);
        lemma_concat_plain(e, component);
        lemma_concat_plain(f, ": "@);
        lemma_concat_plain(g, msg);
        lemma_concat_plain(h, "\n"@);
        assert(false);
    }
}

/// Two texts without an escape character join to a text without one.
proof fn lemma_concat_plain(a: Seq<char>, b: Seq<char>)
    requires
        forall|i: int| 0 <= i < b.len() ==> b[i] != '\x1b',
        !a.contains('\x1b'),
    ensures
        !(a + b).contains('\x1b'),
{
    if (a + b).contains('\x1b') {
        let i = choose|i: int| 0 <= i < (a + b).len() && (a + b)[i] == '\x1b';
        if i < a.len() {
            assert(a[i] == '\x1b');
            assert(a.contains('\x1b'));
        } else {
            assert(b[i - a.len()] == '\x1b');
        }
    }
}

} // verus!
