use crate::logs::appended;
use crate::manager::{pid_of, terminated, ChildHandle, CoreManager, CoreView};
use crate::text::{decimal, decode_line, int_text, lossy_text};
use vstd::prelude::*;
use vstd::string::*;

verus! {

/// Which standard stream of the engine a line came from.
#[derive(Debug, Clone, Copy, PartialEq, Eq, Structural)]
pub enum OutputStream {
    Stdout,
    Stderr,
}

/// The severity under which a line goes to the persistent log.
#[derive(Debug, Clone, Copy, PartialEq, Eq, Structural)]
pub enum Severity {
    Info,
    Error,
}

/// Lines of the error stream are written with the higher severity.
pub open spec fn severity_for(stream: OutputStream) -> Severity {
    match stream {
        OutputStream::Stdout => Severity::Info,
        OutputStream::Stderr => Severity::Error,
    }
}

/// One entry for the persistent log.
#[derive(Debug)]
pub struct SinkRecord {
    pub severity: Severity,
    pub message: String,
}

/// What the engine process reports through its event stream.
#[derive(Debug)]
pub enum SidecarEvent {
    Stdout(Vec<u8>),
    Stderr(Vec<u8>),
    Terminated { code: Option<i32>, signal: Option<i32> },
    Other,
}

/// What the pump does after one event.
#[derive(Debug)]
pub enum PumpStep {
    /// Write the record and wait for the next event.
    Line(SinkRecord),
    /// Nothing to write; wait for the next event.
    Skip,
    /// Write the record and stop: the process is gone. The handle, if the
    /// state still held one, is handed back.
    Finished { record: SinkRecord, released: Option<ChildHandle> },
}

/// The message written when the process ends: its exit code if it has one,
/// else the signal that ended it.
pub open spec fn termination_text(code: Option<i32>, signal: Option<i32>) -> Seq<char> {
    match code {
        Some(c) => "Process terminated with code: "@ + int_text(c as int),
        None => match signal {
            Some(s) => "Process terminated by signal: "@ + int_text(s as int),
            None => "Process terminated"@,
        },
    }
}

/// The message written when the process ends.
pub fn termination_message(code: Option<i32>, signal: Option<i32>) -> (r: String)
    ensures
        r@ == termination_text(code, signal),
{
    match code {
        Some(c) => {
            let digits = decimal(c);
            String::from_str("Process terminated with code: ").concat(digits.as_str())
        },
        None => match signal {
            Some(s) => {
                let digits = decimal(s);
                String::from_str("Process terminated by signal: ").concat(digits.as_str())
            },
            None => String::from_str("Process terminated"),
        },
    }
}

impl CoreManager {
    /// Takes one decoded output line: it joins the log buffer and is
    /// returned for the persistent log with the stream's severity.
    pub fn record_output_line(&mut self, stream: OutputStream, line: String) -> (r: SinkRecord)
        ensures
            final(self)@ == (CoreView { logs: appended(old(self)@.logs, line@), ..old(self)@ }),
            r.severity == severity_for(stream),
            r.message@ == line@,
    {
        let message = line.clone();
        self.append_log(line);
        let severity = match stream {
            OutputStream::Stdout => Severity::Info,
            OutputStream::Stderr => Severity::Error,
        };
        SinkRecord { severity, message }
    }

    /// Handles one event of the engine process. Output lines are decoded
    /// and recorded; termination empties the buffer and sets the mode to
    /// `NotRunning`, whatever it was, and ends the pump.
    pub fn handle_sidecar_event(&mut self, event: SidecarEvent) -> (r: PumpStep)
        ensures
            match event {
                SidecarEvent::Stdout(b) => {
                    &&& final(self)@ == (CoreView {
                        logs: appended(old(self)@.logs, lossy_text(b@)),
                        ..old(self)@
                    })
                    &&& r matches PumpStep::Line(rec)
                    &&& rec.severity == Severity::Info
                    &&& rec.message@ == lossy_text(b@)
                },
                SidecarEvent::Stderr(b) => {
                    &&& final(self)@ == (CoreView {
                        logs: appended(old(self)@.logs, lossy_text(b@)),
                        ..old(self)@
                    })
                    &&& r matches PumpStep::Line(rec)
                    &&& rec.severity == Severity::Error
                    &&& rec.message@ == lossy_text(b@)
                },
                SidecarEvent::Terminated { code, signal } => {
                    &&& final(self)@ == terminated(old(self)@)
                    &&& r matches PumpStep::Finished { record, released }
                    &&& record.severity == Severity::Info
                    &&& record.message@ == termination_text(code, signal)
                    &&& pid_of(released) == old(self)@.child
                },
                SidecarEvent::Other => {
                    &&& final(self)@ == old(self)@
                    &&& r is Skip
                },
            },
    {
        match event {
            SidecarEvent::Stdout(bytes) => {
                let line = decode_line(&bytes);
                PumpStep::Line(self.record_output_line(OutputStream::Stdout, line))
            },
            SidecarEvent::Stderr(bytes) => {
                let line = decode_line(&bytes);
                PumpStep::Line(self.record_output_line(OutputStream::Stderr, line))
            },
            SidecarEvent::Terminated { code, signal } => {
                let message = termination_message(code, signal);
                let released = self.on_terminated();
                PumpStep::Finished {
                    record: SinkRecord { severity: Severity::Info, message },
                    released,
                }
            },
            SidecarEvent::Other => PumpStep::Skip,
        }
    }
}

} // verus!
