//! Log events that a script hands to the host.

use vstd::prelude::*;
use vstd::string::*;
use crate::ext::op_state::OpState;
use crate::text::same_text;

verus! {

/// `std::sync::mpsc::Sender`, carried through without a look inside.
#[verifier::external_type_specification]
#[verifier::external_body]
#[verifier::reject_recursive_types(T)]
pub struct ExLogChannel<T>(std::sync::mpsc::Sender<T>);

/// The sink that log events are forwarded to.
pub type LogSender = std::sync::mpsc::Sender<LogEvent>;

/// How grave a log event is.
#[derive(Debug, Clone, Copy, PartialEq, Eq, Structural)]
pub enum LogLevel {
    Error,
    Warn,
    Info,
    Log,
    Debug,
    Trace,
}

/// One log event of a script.
#[derive(Debug)]
pub struct LogEvent {
    pub level: LogLevel,
    pub message: String,
}

/// The level that a name stands for: the level of that name, and `Log`,
/// the level of a plain message, for every other text.
pub open spec fn level_named(name: Seq<char>) -> LogLevel {
    if name == "error"@ {
        LogLevel::Error
    } else if name == "warn"@ {
        LogLevel::Warn
    } else if name == "info"@ {
        LogLevel::Info
    } else if name == "debug"@ {
        LogLevel::Debug
    } else if name == "trace"@ {
        LogLevel::Trace
    } else {
        LogLevel::Log
    }
}

impl LogLevel {
    /// Reads a level from its lower-case name. A text that names none is
    /// read as `Log`, so that no event is lost for its level.
    pub fn from_str(name: &str) -> (level: LogLevel)
        ensures
            level == level_named(name@),
    {
        if same_text(name, "error") {
            LogLevel::Error
        } else if same_text(name, "warn") {
            LogLevel::Warn
        } else if same_text(name, "info") {
            LogLevel::Info
        } else if same_text(name, "debug") {
            LogLevel::Debug
        } else if same_text(name, "trace") {
            LogLevel::Trace
        } else {
            LogLevel::Log
        }
    }
}

impl LogEvent {
    /// The event for a level name and a message.
    pub fn new(level: &str, message: &str) -> (event: LogEvent)
        ensures
            event.level == level_named(level@),
            event.message@ == message@,
    {
        LogEvent { level: LogLevel::from_str(level), message: String::from_str(message) }
    }
}

/// What became of a log event of the script.
#[derive(Debug)]
pub enum Logged {
    /// The sink took the event.
    Taken,
    /// The host gave no sink: the event was dropped.
    NoSink,
    /// The sink is gone, its receiver dropped: the event came back.
    SinkGone(LogEvent),
}

impl Logged {
    /// What became of an event, from what handing it to the sink returned:
    /// taken where that went well, else the event that came back.
    pub fn of_send(sent: Result<(), LogEvent>) -> (outcome: Logged)
        ensures
            sent is Ok ==> outcome is Taken,
            sent matches Err(back) ==> outcome == Logged::SinkGone(back),
    {
        match sent {
            Ok(()) => Logged::Taken,
            Err(back) => Logged::SinkGone(back),
        }
    }
}

/// `std::sync::mpsc::Sender::send`: hands the event to the channel. Where
/// the channel does not take it, because the receiver is gone, the event is
/// handed back as it was. Whether the channel takes it nothing here can tell
/// beforehand.
#[verifier::external_body]
fn forward(tx: &LogSender, event: LogEvent) -> (sent: Result<(), LogEvent>)
    ensures
        sent matches Err(back) ==> back == event,
{
    tx.send(event).map_err(|refused| refused.0)
}

/// What is to be forwarded for a log call of the script, and where: the
/// sink of the host and the event of that level and message, or nothing
/// where the host gave no sink.
pub fn log_plan<'a>(state: &'a OpState, level: &str, message: &str) -> (plan: Option<
    (&'a LogSender, LogEvent),
>)
    ensures
        match plan {
            Some(p) => {
                &&& state.log_tx == Some(*p.0)
                &&& p.1.level == level_named(level@)
                &&& p.1.message@ == message@
            },
            None => state.log_tx is None,
        },
{
    match &state.log_tx {
        Some(tx) => Some((tx, LogEvent::new(level, message))),
        None => None,
    }
}

/// Forwards one log event of the script to the host's sink and says what
/// became of it. Without a sink the event is dropped, which is no error.
/// With a sink, sink and event are those of `log_plan`: the event is handed
/// to the sink, and comes back where the sink is gone.
pub fn op_log(state: &OpState, level: &str, message: &str) -> (outcome: Logged)
    ensures
        match outcome {
            Logged::NoSink => state.log_tx is None,
            Logged::Taken => state.log_tx is Some,
            Logged::SinkGone(event) => {
                &&& state.log_tx is Some
                &&& event.level == level_named(level@)
                &&& event.message@ == message@
            },
        },
{
    match log_plan(state, level, message) {
        None => Logged::NoSink,
        Some((tx, event)) => Logged::of_send(forward(tx, event)),
    }
}

} // verus!
