//! Log entries: the message of each transition and failure, and the line in
//! which a message stands behind its timestamp.

use vstd::prelude::*;
use vstd::string::*;
use crate::monitor::Event;

verus! {

/// Where startup or the loop went wrong.
#[derive(Clone, Copy, Debug, PartialEq, Eq, Structural)]
pub enum Fault {
    /// The pin controller or one of the two pins could not be claimed.
    PinInit,
    /// The log could not be opened.
    LogCreate,
    /// An entry could not be written to the log.
    LogWrite,
}

impl Fault {
    /// What the fault is called in an error entry.
    pub open spec fn spec_label(self) -> Seq<char> {
        match self {
            Fault::PinInit => "GPIO initialization failed"@,
            Fault::LogCreate => "log file creation failed"@,
            Fault::LogWrite => "log write failed"@,
        }
    }

    /// The description of the fault with its cause: the label, a colon and a
    /// space, and the cause.
    pub open spec fn spec_describe(self, cause: Seq<char>) -> Seq<char> {
        self.spec_label() + ": "@ + cause
    }

    /// Describes the fault and names `cause`, the words of the underlying
    /// error.
    pub fn describe(self, cause: &str) -> (text: String)
        ensures
            text@ == self.spec_describe(cause@),
    {
        let mut text = match self {
            Fault::PinInit => String::from_str("GPIO initialization failed"),
            Fault::LogCreate => String::from_str("log file creation failed"),
            Fault::LogWrite => String::from_str("log write failed"),
        };
        text.append(": ");
        text.append(cause);
        text
    }
}

impl Event {
    /// The message that records the event.
    pub open spec fn spec_message(self) -> Seq<char> {
        match self {
            Event::Button(level) => "Button state: "@ + level.spec_name(),
            Event::Led(level) => "LED state changed: "@ + level.spec_name(),
        }
    }

    /// The message that records the event: `Button state: ` or
    /// `LED state changed: `, followed by the level's name.
    pub fn message(&self) -> (text: String)
        ensures
            text@ == self.spec_message(),
    {
        match self {
            Event::Button(level) => {
                let mut text = String::from_str("Button state: ");
                let name = level.name();
                text.append(name.as_str());
                text
            },
            Event::Led(level) => {
                let mut text = String::from_str("LED state changed: ");
                let name = level.name();
                text.append(name.as_str());
                text
            },
        }
    }
}

/// The message of an error entry: `Error: ` and the description.
pub open spec fn spec_error_message(description: Seq<char>) -> Seq<char> {
    "Error: "@ + description
}

/// One line of the log: the timestamp in square brackets, a space, the
/// message, and a line feed.
pub open spec fn spec_log_line(timestamp: Seq<char>, message: Seq<char>) -> Seq<char> {
    "["@ + timestamp + "] "@ + message + "\n"@
}

/// A log entry as contracts see it.
pub struct LogEntryView {
    /// When the entry was made.
    pub timestamp: Seq<char>,
    /// What it records.
    pub message: Seq<char>,
}

/// One record of the log: a timestamp and a message. An entry never changes
/// once it is made.
pub struct LogEntry {
    timestamp: String,
    message: String,
}

impl View for LogEntry {
    type V = LogEntryView;

    closed spec fn view(&self) -> LogEntryView {
        LogEntryView { timestamp: self.timestamp@, message: self.message@ }
    }
}

impl LogEntry {
    /// The entry that records `message` at `timestamp`.
    pub fn new(timestamp: &str, message: &str) -> (entry: LogEntry)
        ensures
            entry@ == (LogEntryView { timestamp: timestamp@, message: message@ }),
    {
        LogEntry { timestamp: String::from_str(timestamp), message: String::from_str(message) }
    }

    /// When the entry was made.
    pub fn timestamp(&self) -> (text: &str)
        ensures
            text@ == self@.timestamp,
    {
        self.timestamp.as_str()
    }

    /// What the entry records.
    pub fn message(&self) -> (text: &str)
        ensures
            text@ == self@.message,
    {
        self.message.as_str()
    }

    /// The entry as it stands in the log, line feed included.
    pub fn line(&self) -> (text: String)
        ensures
            text@ == spec_log_line(self@.timestamp, self@.message),
    {
        log_line(self.timestamp.as_str(), self.message.as_str())
    }
}

/// The message of an error entry for `description`.
pub fn error_message(description: &str) -> (text: String)
    ensures
        text@ == spec_error_message(description@),
{
    let mut text = String::from_str("Error: ");
    text.append(description);
    text
}

/// The log line for `message` at `timestamp`.
pub fn log_line(timestamp: &str, message: &str) -> (line: String)
    ensures
        line@ == spec_log_line(timestamp@, message@),
{
    let mut line = String::from_str("[");
    line.append(timestamp);
    line.append("] ");
    line.append(message);
    line.append("\n");
    line
}

/// The entries that record `events`, all at `timestamp`, in the order of the
/// events.
pub fn entries_at(timestamp: &str, events: &Vec<Event>) -> (entries: Vec<LogEntry>)
    ensures
        entries@.len() == events@.len(),
        forall|i: int|
            0 <= i < events@.len() ==> (#[trigger] entries@[i])@ == (LogEntryView {
                timestamp: timestamp@,
                message: events@[i].spec_message(),
            }),
{
    let mut entries: Vec<LogEntry> = Vec::new();
    let mut i: usize = 0;
    while i < events.len()
        invariant
            i <= events.len(),
            entries@.len() == i,
            forall|j: int|
                0 <= j < i ==> (#[trigger] entries@[j])@ == (LogEntryView {
                    timestamp: timestamp@,
                    message: events@[j].spec_message(),
                }),
        decreases events.len() - i,
    {
        let message = events[i].message();
        entries.push(LogEntry::new(timestamp, message.as_str()));
        i += 1;
    }
    entries
}

/// The error entry for `description` at `timestamp`.
pub fn error_entry_at(timestamp: &str, description: &str) -> (entry: LogEntry)
    ensures
        entry@ == (LogEntryView {
            timestamp: timestamp@,
            message: spec_error_message(description@),
        }),
{
    let message = error_message(description);
    LogEntry::new(timestamp, message.as_str())
}

} // verus!
