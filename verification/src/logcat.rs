//! The log redirector: every diagnostic record the framework or GLib emits
//! is reduced to plain values by the unverified layer and routed here, which
//! decides whether it is written at all, at which Android priority, under
//! which tag, and with exactly which text.

use vstd::prelude::*;
use crate::clock::{ClockTime, clock_chars, push_clock};
use crate::render::{dec_chars, hex_chars, push_decimal, push_hex};

verus! {

/// Android log priorities, in the platform's increasing order of severity.
#[derive(Clone, Copy, Debug, PartialEq, Eq, Structural)]
pub enum LogPriority {
    Verbose,
    Debug,
    Info,
    Warn,
    Error,
}

impl LogPriority {
    /// The numeric code the platform's log device takes for this priority.
    pub open spec fn spec_code(self) -> i32 {
        match self {
            LogPriority::Verbose => 2,
            LogPriority::Debug => 3,
            LogPriority::Info => 4,
            LogPriority::Warn => 5,
            LogPriority::Error => 6,
        }
    }

    /// The numeric code the platform's log device takes for this priority.
    pub fn code(self) -> (c: i32)
        ensures
            c == self.spec_code(),
    {
        match self {
            LogPriority::Verbose => 2,
            LogPriority::Debug => 3,
            LogPriority::Info => 4,
            LogPriority::Warn => 5,
            LogPriority::Error => 6,
        }
    }
}

/// GLib's log levels.
#[derive(Clone, Copy, Debug, PartialEq, Eq, Structural)]
pub enum GlibLogLevel {
    Error,
    Critical,
    Warning,
    Message,
    Info,
    Debug,
}

/// The Android priority to which a GLib log level is forwarded: errors and
/// criticals are errors, warnings stay warnings, messages and infos are
/// informational, debug stays debug.
pub open spec fn spec_glib_priority(level: GlibLogLevel) -> LogPriority {
    match level {
        GlibLogLevel::Error => LogPriority::Error,
        GlibLogLevel::Critical => LogPriority::Error,
        GlibLogLevel::Warning => LogPriority::Warn,
        GlibLogLevel::Message => LogPriority::Info,
        GlibLogLevel::Info => LogPriority::Info,
        GlibLogLevel::Debug => LogPriority::Debug,
    }
}

/// The Android priority to which a GLib log level is forwarded.
pub fn glib_priority(level: GlibLogLevel) -> (p: LogPriority)
    ensures
        p == spec_glib_priority(level),
{
    match level {
        GlibLogLevel::Error => LogPriority::Error,
        GlibLogLevel::Critical => LogPriority::Error,
        GlibLogLevel::Warning => LogPriority::Warn,
        GlibLogLevel::Message => LogPriority::Info,
        GlibLogLevel::Info => LogPriority::Info,
        GlibLogLevel::Debug => LogPriority::Debug,
    }
}

/// The framework's debug levels.  `Off` is the level under which nothing is
/// logged; the others grow more verbose in the framework's numbering, which
/// `spec_rank` reproduces.
#[derive(Clone, Copy, Debug, PartialEq, Eq, Structural)]
pub enum GstDebugLevel {
    Off,
    Error,
    Warning,
    Fixme,
    Info,
    Debug,
    Log,
    Trace,
    Memdump,
}

impl GstDebugLevel {
    /// The framework's numeric value of the level (its numbering leaves 8
    /// unused).
    pub open spec fn spec_rank(self) -> u32 {
        match self {
            GstDebugLevel::Off => 0,
            GstDebugLevel::Error => 1,
            GstDebugLevel::Warning => 2,
            GstDebugLevel::Fixme => 3,
            GstDebugLevel::Info => 4,
            GstDebugLevel::Debug => 5,
            GstDebugLevel::Log => 6,
            GstDebugLevel::Trace => 7,
            GstDebugLevel::Memdump => 9,
        }
    }

    /// The framework's numeric value of the level.
    pub fn rank(self) -> (r: u32)
        ensures
            r == self.spec_rank(),
    {
        match self {
            GstDebugLevel::Off => 0,
            GstDebugLevel::Error => 1,
            GstDebugLevel::Warning => 2,
            GstDebugLevel::Fixme => 3,
            GstDebugLevel::Info => 4,
            GstDebugLevel::Debug => 5,
            GstDebugLevel::Log => 6,
            GstDebugLevel::Trace => 7,
            GstDebugLevel::Memdump => 9,
        }
    }
}

/// Whether a record at `level` passes a category whose threshold is
/// `threshold`: only records no more verbose than the threshold are written.
pub fn passes_threshold(level: GstDebugLevel, threshold: GstDebugLevel) -> (b: bool)
    ensures
        b == (level.spec_rank() <= threshold.spec_rank()),
{
    level.rank() <= threshold.rank()
}

/// The Android priority to which a framework debug level is forwarded:
/// error, warning, info and debug map to their namesakes, everything more
/// verbose is verbose.
pub open spec fn spec_gst_priority(level: GstDebugLevel) -> LogPriority {
    match level {
        GstDebugLevel::Error => LogPriority::Error,
        GstDebugLevel::Warning => LogPriority::Warn,
        GstDebugLevel::Info => LogPriority::Info,
        GstDebugLevel::Debug => LogPriority::Debug,
        _ => LogPriority::Verbose,
    }
}

/// The Android priority to which a framework debug level is forwarded.
pub fn gst_priority(level: GstDebugLevel) -> (p: LogPriority)
    ensures
        p == spec_gst_priority(level),
{
    match level {
        GstDebugLevel::Error => LogPriority::Error,
        GstDebugLevel::Warning => LogPriority::Warn,
        GstDebugLevel::Info => LogPriority::Info,
        GstDebugLevel::Debug => LogPriority::Debug,
        _ => LogPriority::Verbose,
    }
}

/// The priority and tag under which GLib's print handler writes.
pub fn stdout_print_route() -> (r: (LogPriority, &'static str))
    ensures
        r.0 == LogPriority::Info,
        r.1@ == "GLib+stdout"@,
{
    (LogPriority::Info, "GLib+stdout")
}

/// The priority and tag under which GLib's error-print handler writes.
pub fn stderr_print_route() -> (r: (LogPriority, &'static str))
    ensures
        r.0 == LogPriority::Error,
        r.1@ == "GLib+stderr"@,
{
    (LogPriority::Error, "GLib+stderr")
}

/// The priority and tag of the init shim's own trace lines.
pub fn init_trace_route() -> (r: (LogPriority, &'static str))
    ensures
        r.0 == LogPriority::Verbose,
        r.1@ == "GStreamer+androidinit"@,
{
    (LogPriority::Verbose, "GStreamer+androidinit")
}

/// The priority and tag of the init shim's own error lines.
pub fn init_error_route() -> (r: (LogPriority, &'static str))
    ensures
        r.0 == LogPriority::Error,
        r.1@ == "GStreamer+androidinit"@,
{
    (LogPriority::Error, "GStreamer+androidinit")
}

/// The whole routing of one GLib diagnostic with a domain: the priority
/// follows the level, the tag is the domain under the GLib prefix.
pub fn route_glib_log(domain: &str, level: GlibLogLevel) -> (r: (LogPriority, String))
    ensures
        r.0 == spec_glib_priority(level),
        r.1@ == "Glib+"@ + domain@,
{
    let mut tag = String::from_str("Glib+");
    tag.append(domain);
    (glib_priority(level), tag)
}

/// The tag of a forwarded framework debug record.
pub fn gst_category_tag(category: &str) -> (t: String)
    ensures
        t@ == "GStreamer+"@ + category@,
{
    let mut tag = String::from_str("GStreamer+");
    tag.append(category);
    tag
}

/// What the redirector knows about the object a debug record came from.
/// The unverified layer reads the names out of the raw object — they may be
/// empty when the object is not yet fully constructed.
pub enum RecordSource {
    /// A pad, labelled with its parent element's name and its own name.
    Pad { parent: String, name: String },
    /// Any other framework object, labelled with its name.
    Object { name: String },
    /// An object foreign to the framework, labelled with its type name and
    /// address.
    Foreign { kind: String, address: u64 },
    /// No originating object.
    Anonymous,
}

/// The bracketed label a record source contributes to its log line.
pub open spec fn label_chars(src: RecordSource) -> Seq<char> {
    match src {
        RecordSource::Pad { parent, name } => seq!['<'] + parent@ + seq![':'] + name@ + seq!['>'],
        RecordSource::Object { name } => seq!['<'] + name@ + seq!['>'],
        RecordSource::Foreign { kind, address } => seq!['<'] + kind@ + seq!['@'] + seq![
            '0',
            'x',
        ] + hex_chars(address as nat) + seq!['>'],
        RecordSource::Anonymous => Seq::empty(),
    }
}

/// Appends the bracketed label of `src` to `out`.
pub fn push_label(out: &mut String, src: &RecordSource)
    ensures
        final(out)@ == old(out)@ + label_chars(*src),
{
    proof {
        reveal_strlit("<");
        reveal_strlit(">");
        reveal_strlit(":");
        reveal_strlit("@");
        reveal_strlit("0x");
        assert("<"@ =~= seq!['<']);
        assert(">"@ =~= seq!['>']);
        assert(":"@ =~= seq![':']);
        assert("@"@ =~= seq!['@']);
        assert("0x"@ =~= seq!['0', 'x']);
    }
    match src {
        RecordSource::Pad { parent, name } => {
            out.append("<");
            out.append(parent.as_str());
            out.append(":");
            out.append(name.as_str());
            out.append(">");
            proof {
                assert(out@ =~= old(out)@ + label_chars(*src));
            }
        },
        RecordSource::Object { name } => {
            out.append("<");
            out.append(name.as_str());
            out.append(">");
            proof {
                assert(out@ =~= old(out)@ + label_chars(*src));
            }
        },
        RecordSource::Foreign { kind, address } => {
            out.append("<");
            out.append(kind.as_str());
            out.append("@");
            out.append("0x");
            push_hex(out, *address);
            out.append(">");
            proof {
                assert(out@ =~= old(out)@ + label_chars(*src));
            }
        },
        RecordSource::Anonymous => {
            proof {
                assert(out@ =~= old(out)@ + label_chars(*src));
            }
        },
    }
}

/// The full text of a forwarded debug line: elapsed clock, thread id in
/// hexadecimal, source position, the object label when there is an object,
/// then the message.
pub open spec fn log_line_chars(
    elapsed: Option<u64>,
    thread: nat,
    file: Seq<char>,
    line: nat,
    function: Seq<char>,
    source: RecordSource,
    message: Seq<char>,
) -> Seq<char> {
    clock_chars(elapsed) + seq![' '] + seq!['0', 'x'] + hex_chars(thread) + seq![' '] + file
        + seq![':'] + dec_chars(line) + seq![':'] + function + (match source {
        RecordSource::Anonymous => Seq::<char>::empty(),
        _ => seq![':'] + label_chars(source),
    }) + seq![' '] + message
}

/// Builds the full text of a forwarded debug line.
pub fn format_log_line(
    elapsed: ClockTime,
    thread: u64,
    file: &str,
    line: u32,
    function: &str,
    source: &RecordSource,
    message: &str,
) -> (r: String)
    ensures
        r@ == log_line_chars(
            elapsed.nanos,
            thread as nat,
            file@,
            line as nat,
            function@,
            *source,
            message@,
        ),
{
    proof {
        reveal_strlit(" ");
        reveal_strlit(":");
        reveal_strlit("0x");
        assert(" "@ =~= seq![' ']);
        assert(":"@ =~= seq![':']);
        assert("0x"@ =~= seq!['0', 'x']);
    }
    let mut out = String::new();
    push_clock(&mut out, elapsed);
    out.append(" ");
    out.append("0x");
    push_hex(&mut out, thread);
    out.append(" ");
    out.append(file);
    out.append(":");
    push_decimal(&mut out, line as u64);
    out.append(":");
    out.append(function);
    match source {
        RecordSource::Anonymous => {},
        _ => {
            out.append(":");
            push_label(&mut out, source);
        },
    }
    out.append(" ");
    out.append(message);
    proof {
        assert(out@ =~= log_line_chars(
            elapsed.nanos,
            thread as nat,
            file@,
            line as nat,
            function@,
            *source,
            message@,
        ));
    }
    out
}

/// One framework debug record, reduced to plain values by the unverified
/// callback, together with the threshold of the category it was emitted
/// under.
pub struct DebugRecord {
    /// The debug category's name.
    pub category: String,
    /// The category's current threshold.
    pub threshold: GstDebugLevel,
    /// The record's own level.
    pub level: GstDebugLevel,
    /// Source file of the emitting call.
    pub file: String,
    /// Source function of the emitting call.
    pub function: String,
    /// Source line of the emitting call.
    pub line: u32,
    /// The object the record came from.
    pub source: RecordSource,
    /// The record's message.
    pub message: String,
}

/// A line ready for the platform's log device.
pub struct LogcatLine {
    pub priority: LogPriority,
    pub tag: String,
    pub message: String,
}

/// The redirector's whole work on one debug record: a record more verbose
/// than its category's threshold is dropped; any other is routed to the
/// priority of its level, tagged with its category, and rendered with the
/// elapsed time, the calling thread and its origin.
pub fn redirect_record(record: &DebugRecord, elapsed: ClockTime, thread: u64) -> (r: Option<
    LogcatLine,
>)
    ensures
        record.level.spec_rank() > record.threshold.spec_rank() ==> r is None,
        record.level.spec_rank() <= record.threshold.spec_rank() ==> (r matches Some(l)
            && l.priority == spec_gst_priority(record.level) && l.tag@ == "GStreamer+"@
            + record.category@ && l.message@ == log_line_chars(
            elapsed.nanos,
            thread as nat,
            record.file@,
            record.line as nat,
            record.function@,
            record.source,
            record.message@,
        )),
{
    if passes_threshold(record.level, record.threshold) {
        let line = format_log_line(
            elapsed,
            thread,
            record.file.as_str(),
            record.line,
            record.function.as_str(),
            &record.source,
            record.message.as_str(),
        );
        Some(
            LogcatLine {
                priority: gst_priority(record.level),
                tag: gst_category_tag(record.category.as_str()),
                message: line,
            },
        )
    } else {
        None
    }
}

} // verus!
