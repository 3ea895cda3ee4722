//! The log interceptor: diagnostic records become log envelopes on the same
//! channel as the reports, so the channel never carries unstructured text.
//!
//! The interceptor is built once at startup with the severity threshold of
//! the process-wide diagnostic facility. Each record at or above the
//! threshold is mapped to an envelope severity, rendered, and framed; every
//! other record is discarded.

use vstd::prelude::*;
use vstd::string::StringExecFns;
use crate::json::{envelope_json, json_string_of, push_json_string};
use crate::wire::{frame_message, frame_text};

verus! {

/// Severity carried by a log envelope.
#[derive(Clone, Copy, Debug, PartialEq, Eq, Structural)]
pub enum LogLevel {
    Debug,
    Info,
    Warning,
    Error,
}

/// Severity of a record in the host diagnostic logging facility.
#[derive(Clone, Copy, Debug, PartialEq, Eq, Structural)]
pub enum HostLogLevel {
    Error,
    Warn,
    Info,
    Debug,
    Trace,
}

/// Threshold of the host facility: the most verbose severity still reported.
#[derive(Clone, Copy, Debug, PartialEq, Eq, Structural)]
pub enum LogFilter {
    Off,
    Error,
    Warn,
    Info,
    Debug,
    Trace,
}

/// The envelope severity a host record maps to; severities the envelope
/// model does not distinguish are reported as Debug.
pub open spec fn spec_map_level(l: HostLogLevel) -> LogLevel {
    match l {
        HostLogLevel::Error => LogLevel::Error,
        HostLogLevel::Warn => LogLevel::Warning,
        HostLogLevel::Info => LogLevel::Info,
        HostLogLevel::Debug => LogLevel::Debug,
        HostLogLevel::Trace => LogLevel::Debug,
    }
}

/// Maps a host severity to the severity its log envelope carries.
pub fn map_level(l: HostLogLevel) -> (r: LogLevel)
    ensures
        r == spec_map_level(l),
{
    match l {
        HostLogLevel::Error => LogLevel::Error,
        HostLogLevel::Warn => LogLevel::Warning,
        HostLogLevel::Info => LogLevel::Info,
        HostLogLevel::Debug => LogLevel::Debug,
        HostLogLevel::Trace => LogLevel::Debug,
    }
}

/// Verbosity rank of a host severity; greater is more verbose.
pub open spec fn severity_rank(l: HostLogLevel) -> int {
    match l {
        HostLogLevel::Error => 1,
        HostLogLevel::Warn => 2,
        HostLogLevel::Info => 3,
        HostLogLevel::Debug => 4,
        HostLogLevel::Trace => 5,
    }
}

/// Verbosity rank of a threshold; `Off` admits nothing.
pub open spec fn filter_rank(f: LogFilter) -> int {
    match f {
        LogFilter::Off => 0,
        LogFilter::Error => 1,
        LogFilter::Warn => 2,
        LogFilter::Info => 3,
        LogFilter::Debug => 4,
        LogFilter::Trace => 5,
    }
}

/// A record passes the threshold when its severity is no more verbose than
/// the threshold admits.
pub open spec fn level_enabled(f: LogFilter, l: HostLogLevel) -> bool {
    severity_rank(l) <= filter_rank(f)
}

fn is_enabled(f: LogFilter, l: HostLogLevel) -> (r: bool)
    ensures
        r == level_enabled(f, l),
{
    let lr: u8 = match l {
        HostLogLevel::Error => 1,
        HostLogLevel::Warn => 2,
        HostLogLevel::Info => 3,
        HostLogLevel::Debug => 4,
        HostLogLevel::Trace => 5,
    };
    let fr: u8 = match f {
        LogFilter::Off => 0,
        LogFilter::Error => 1,
        LogFilter::Warn => 2,
        LogFilter::Info => 3,
        LogFilter::Debug => 4,
        LogFilter::Trace => 5,
    };
    lr <= fr
}

/// Wire name of an envelope severity.
pub open spec fn level_name(l: LogLevel) -> Seq<char> {
    match l {
        LogLevel::Debug => "debug"@,
        LogLevel::Info => "info"@,
        LogLevel::Warning => "warning"@,
        LogLevel::Error => "error"@,
    }
}

/// The JSON params object of a log envelope.
pub open spec fn log_params_json(message: Seq<char>, level: LogLevel) -> Seq<char> {
    "{\"message\":"@ + json_string_of(message) + ",\"level\":\""@ + level_name(level) + "\"}"@
}

/// The body of the envelope a log record puts on the wire.
pub open spec fn log_report_json(message: Seq<char>, level: LogLevel) -> Seq<char> {
    envelope_json("2.0"@, "log"@, log_params_json(message, level))
}

/// The payload of a log envelope.
#[derive(Debug)]
pub struct Log {
    pub message: String,
    pub level: LogLevel,
}

/// The envelope carrying one diagnostic record.
#[derive(Debug)]
pub struct LogMessage {
    pub jsonrpc: String,
    pub method: String,
    pub params: Log,
}

impl LogMessage {
    pub fn new(message: String, level: LogLevel) -> (r: Self)
        ensures
            r.jsonrpc@ == "2.0"@,
            r.method@ == "log"@,
            r.params.message == message,
            r.params.level == level,
    {
        Self {
            jsonrpc: String::from_str("2.0"),
            method: String::from_str("log"),
            params: Log { message, level },
        }
    }
}

/// Serializes a log envelope to its canonical compact JSON text.
pub fn serialize_log_message(msg: &LogMessage) -> (r: String)
    ensures
        r@ == envelope_json(
            msg.jsonrpc@,
            msg.method@,
            log_params_json(msg.params.message@, msg.params.level),
        ),
{
    let mut out = String::new();
    out.append("{\"jsonrpc\":");
    push_json_string(&mut out, msg.jsonrpc.as_str());
    out.append(",\"method\":");
    push_json_string(&mut out, msg.method.as_str());
    out.append(",\"params\":");
    out.append("{\"message\":");
    push_json_string(&mut out, msg.params.message.as_str());
    out.append(",\"level\":\"");
    match msg.params.level {
        LogLevel::Debug => out.append("debug"),
        LogLevel::Info => out.append("info"),
        LogLevel::Warning => out.append("warning"),
        LogLevel::Error => out.append("error"),
    }
    out.append("\"}");
    out.append("}");
    proof {
        assert(out@ =~= envelope_json(
            msg.jsonrpc@,
            msg.method@,
            log_params_json(msg.params.message@, msg.params.level),
        ));
    }
    out
}

/// The sink for the process-wide diagnostic facility, built once at startup.
#[derive(Clone, Copy, Debug)]
pub struct LogInterceptor {
    pub filter: LogFilter,
}

impl LogInterceptor {
    pub fn new(filter: LogFilter) -> (r: Self)
        ensures
            r.filter == filter,
    {
        LogInterceptor { filter }
    }

    /// One complete frame for a record that passes the threshold; nothing
    /// for a record the threshold filters out.
    pub fn intercept(&self, level: HostLogLevel, message: &str) -> (r: Option<String>)
        ensures
            match r {
                Some(f) => level_enabled(self.filter, level) && f@ == frame_text(
                    log_report_json(message@, spec_map_level(level)),
                ),
                None => !level_enabled(self.filter, level),
            },
    {
        if is_enabled(self.filter, level) {
            let msg = LogMessage::new(String::from_str(message), map_level(level));
            let body = serialize_log_message(&msg);
            Some(frame_message(body.as_str()))
        } else {
            None
        }
    }
}

} // verus!
