//! The output relay: routing of a spawned process's output lines to the
//! logging sink, tagged with the source stream and a fixed process label.
//!
//! The shell runs one relay task per spawned process.  The task reads events
//! from the process's output stream and asks [`relay_step`] what to log for
//! each; it terminates on its own when the stream closes.  [`relay_drain`]
//! states what a whole relay run emits for the finite event sequence of a
//! closed stream, and that it terminates.

use vstd::prelude::*;

verus! {

/// The fixed label under which every relayed line is logged.
pub open spec fn process_label() -> Seq<char> {
    "cpp-server"@
}

/// One event read from a process's output stream: a line from one of the
/// two output channels, or anything else the stream reports (exit,
/// termination), which the relay ignores.
pub enum OutputEvent {
    Stdout { line: String },
    Stderr { line: String },
    Other,
}

/// Model of an output event: the line as a character sequence.
pub enum EventModel {
    Stdout { line: Seq<char> },
    Stderr { line: Seq<char> },
    Other,
}

impl View for OutputEvent {
    type V = EventModel;

    open spec fn view(&self) -> EventModel {
        match self {
            OutputEvent::Stdout { line } => EventModel::Stdout { line: line@ },
            OutputEvent::Stderr { line } => EventModel::Stderr { line: line@ },
            OutputEvent::Other => EventModel::Other,
        }
    }
}

/// One entry handed to the logging sink: the line, the fixed process label,
/// and whether it goes to the error channel of the sink.
pub struct LogEntry {
    pub to_stderr: bool,
    pub label: String,
    pub line: String,
}

/// Model of a log entry.
pub struct LogModel {
    pub to_stderr: bool,
    pub label: Seq<char>,
    pub line: Seq<char>,
}

impl View for LogEntry {
    type V = LogModel;

    open spec fn view(&self) -> LogModel {
        LogModel { to_stderr: self.to_stderr, label: self.label@, line: self.line@ }
    }
}

/// What the relay logs for one stream event: stdout lines go to the sink's
/// output channel, stderr lines to its error channel, both under the fixed
/// process label; every other event logs nothing.
pub open spec fn log_of(ev: EventModel) -> Option<LogModel> {
    match ev {
        EventModel::Stdout { line } => Some(
            LogModel { to_stderr: false, label: process_label(), line },
        ),
        EventModel::Stderr { line } => Some(
            LogModel { to_stderr: true, label: process_label(), line },
        ),
        EventModel::Other => None::<LogModel>,
    }
}

/// Everything the relay logs for a whole event sequence, in stream order.
pub open spec fn logs_of(events: Seq<EventModel>) -> Seq<LogModel>
    decreases events.len(),
{
    if events.len() == 0 {
        Seq::<LogModel>::empty()
    } else {
        let rest = logs_of(events.subrange(1, events.len() as int));
        match log_of(events[0]) {
            Some(entry) => seq![entry] + rest,
            None => rest,
        }
    }
}

/// One step of the relay: the entry to hand to the logging sink for one
/// stream event, if the event carries an output line.
pub fn relay_step(ev: &OutputEvent) -> (r: Option<LogEntry>)
    ensures
        match r {
            Some(entry) => log_of(ev@) == Some(entry@),
            None => log_of(ev@) is None,
        },
{
    match ev {
        OutputEvent::Stdout { line } => Some(
            LogEntry { to_stderr: false, label: String::from_str("cpp-server"), line: line.clone() },
        ),
        OutputEvent::Stderr { line } => Some(
            LogEntry { to_stderr: true, label: String::from_str("cpp-server"), line: line.clone() },
        ),
        OutputEvent::Other => None,
    }
}

/// A whole relay run over the event sequence of a closed stream: it
/// terminates, and it hands the sink exactly the entries of [`logs_of`] —
/// nothing after the last event of the stream.
pub fn relay_drain(events: Vec<OutputEvent>) -> (logs: Vec<LogEntry>)
    ensures
        logs@.map_values(|entry: LogEntry| entry@) == logs_of(
            events@.map_values(|ev: OutputEvent| ev@),
        ),
{
    let ghost all = events@.map_values(|ev: OutputEvent| ev@);
    let mut logs: Vec<LogEntry> = Vec::new();
    let mut i: usize = 0;
    proof {
        assert(logs@.map_values(|entry: LogEntry| entry@) =~= Seq::<LogModel>::empty());
        assert(all.subrange(0, all.len() as int) =~= all);
    }
    while i < events.len()
        invariant
            i <= events.len(),
            all == events@.map_values(|ev: OutputEvent| ev@),
            logs@.map_values(|entry: LogEntry| entry@) + logs_of(
                all.subrange(i as int, all.len() as int),
            ) == logs_of(all),
        decreases events.len() - i,
    {
        let ghost prev = logs@.map_values(|entry: LogEntry| entry@);
        let step = relay_step(&events[i]);
        match step {
            Some(entry) => logs.push(entry),
            None => (),
        }
        proof {
            let suffix = all.subrange(i as int, all.len() as int);
            let rest = all.subrange(i as int + 1, all.len() as int);
            assert(suffix.subrange(1, suffix.len() as int) =~= rest);
            assert(suffix[0] == all[i as int]);
            match log_of(all[i as int]) {
                Some(model) => {
                    assert(logs@.map_values(|entry: LogEntry| entry@) =~= prev + seq![model]);
                    assert((prev + seq![model]) + logs_of(rest) =~= prev + (seq![model] + logs_of(
                        rest,
                    )));
                },
                None => {
                    assert(logs@.map_values(|entry: LogEntry| entry@) =~= prev);
                },
            }
        }
        i = i + 1;
    }
    proof {
        assert(all.subrange(events@.len() as int, all.len() as int) =~= Seq::<
            EventModel,
        >::empty());
        assert(logs@.map_values(|entry: LogEntry| entry@) + Seq::<LogModel>::empty() =~= logs@
            .map_values(|entry: LogEntry| entry@));
    }
    logs
}

} // verus!
