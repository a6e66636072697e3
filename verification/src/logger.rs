//! The diagnostics sink: one log destination and one panic hook for the
//! whole process.
//!
//! The sink is opened at most once, however often it is initialised, and the
//! panic hook is installed at most once. Writing and flushing are done outside
//! this crate; what is decided here is whether the destination has to be
//! opened first, which record a call writes, and what a panic is recorded as.

use vstd::prelude::*;
use crate::failure::{Failure, FailureView, Target};
use crate::host::{HostValue, HostValueView};
use crate::storage::{place, placed, StatePath, StatePathView};
use crate::text::{decimal, decimal_text, optional_text, same_text};

verus! {

/// How severe a record is.
#[derive(Clone, Copy, PartialEq, Eq, Structural, Debug)]
pub enum Severity {
    Error,
    Warn,
    Info,
    Debug,
    Trace,
}

/// The severity that a name stands for. The vocabulary is fixed and
/// case-sensitive: `error`, `warn`, `warning`, `info`, `debug` and `trace`.
pub open spec fn severity_named(name: Seq<char>) -> Option<Severity> {
    if name == "error"@ {
        Some(Severity::Error)
    } else if name == "warn"@ || name == "warning"@ {
        Some(Severity::Warn)
    } else if name == "info"@ {
        Some(Severity::Info)
    } else if name == "debug"@ {
        Some(Severity::Debug)
    } else if name == "trace"@ {
        Some(Severity::Trace)
    } else {
        None
    }
}

/// A severity level that the host has named.
#[derive(Clone, Copy, PartialEq, Eq, Structural, Debug)]
pub struct Level {
    severity: Severity,
}

impl View for Level {
    type V = Severity;

    closed spec fn view(&self) -> Severity {
        self.severity
    }
}

/// What converting a host value to a level gives.
pub open spec fn level_converted(value: HostValueView) -> Result<Severity, FailureView> {
    match value {
        HostValueView::Text(name) => match severity_named(name) {
            Some(severity) => Ok(severity),
            None => Err(FailureView::UnknownLevel { name }),
        },
        HostValueView::Other { value_type } => Err(
            FailureView::ExpectedString { target: Target::Level, found: value_type },
        ),
    }
}

/// A level or a failure, each by its view.
pub open spec fn level_result_view(result: Result<Level, Failure>) -> Result<
    Severity,
    FailureView,
> {
    match result {
        Ok(level) => Ok(level@),
        Err(failure) => Err(failure@),
    }
}

impl Level {
    /// The level of a severity.
    pub fn new(severity: Severity) -> (level: Level)
        ensures
            level@ == severity,
    {
        Level { severity }
    }

    /// The severity of the level.
    pub fn severity(&self) -> (severity: Severity)
        ensures
            severity == self@,
    {
        self.severity
    }

    /// The level that a name stands for. A name outside the vocabulary is a
    /// conversion failure that carries the name.
    pub fn from_name(name: &str) -> (result: Result<Level, Failure>)
        ensures
            level_result_view(result) == level_converted(HostValueView::Text(name@)),
    {
        if same_text(name, "error") {
            Ok(Level { severity: Severity::Error })
        } else if same_text(name, "warn") || same_text(name, "warning") {
            Ok(Level { severity: Severity::Warn })
        } else if same_text(name, "info") {
            Ok(Level { severity: Severity::Info })
        } else if same_text(name, "debug") {
            Ok(Level { severity: Severity::Debug })
        } else if same_text(name, "trace") {
            Ok(Level { severity: Severity::Trace })
        } else {
            Err(Failure::UnknownLevel { name: name.to_owned() })
        }
    }

    /// Converts a host value to a level. A value that is no string is a
    /// conversion failure that carries the name of the value's type.
    pub fn from_host(value: &HostValue) -> (result: Result<Level, Failure>)
        ensures
            level_result_view(result) == level_converted(value@),
    {
        match value {
            HostValue::Text(name) => Level::from_name(name.as_str()),
            HostValue::Other { value_type } => Err(
                Failure::ExpectedString { target: Target::Level, found: value_type.clone() },
            ),
        }
    }
}

/// One log record.
#[derive(PartialEq, Eq, Debug)]
pub struct Record {
    pub severity: Severity,
    pub message: String,
}

/// A record with its message as a sequence of characters.
pub struct RecordView {
    pub severity: Severity,
    pub message: Seq<char>,
}

impl View for Record {
    type V = RecordView;

    open spec fn view(&self) -> RecordView {
        RecordView { severity: self.severity, message: self.message@ }
    }
}

/// What a call of `log` gives: the one record to be written, or the failure
/// of the conversion of the level.
pub open spec fn logged(level: HostValueView, message: Seq<char>) -> Result<
    RecordView,
    FailureView,
> {
    match level_converted(level) {
        Ok(severity) => Ok(RecordView { severity, message }),
        Err(failure) => Err(failure),
    }
}

/// A record or a failure, each by its view.
pub open spec fn record_result_view(result: Result<Record, Failure>) -> Result<
    RecordView,
    FailureView,
> {
    match result {
        Ok(record) => Ok(record@),
        Err(failure) => Err(failure@),
    }
}

/// Decides what a call of the host's `log` writes: exactly one record with
/// the severity that `level` names and with `message` as its text. Where
/// `level` names no severity the call fails and nothing is to be written.
pub fn log(level: &HostValue, message: String) -> (result: Result<Record, Failure>)
    ensures
        record_result_view(result) == logged(level@, message@),
{
    match Level::from_host(level) {
        Ok(level) => Ok(Record { severity: level.severity(), message }),
        Err(failure) => Err(failure),
    }
}

/// How the lines of the log are laid out.
#[derive(Clone, Copy, PartialEq, Eq, Structural, Debug)]
pub enum LineFormat {
    /// Severity, module and message.
    Plain,
    /// Time, severity, file and line of the source, and message.
    WithTimeAndPlace,
}

/// When records reach the disk.
#[derive(Clone, Copy, PartialEq, Eq, Structural, Debug)]
pub enum Buffering {
    /// Each record is written as it comes.
    Unbuffered,
    /// Records are buffered, and the buffer is flushed at intervals and on
    /// demand.
    BufferAndFlush,
}

/// How the log destination is set up when it is opened.
#[derive(PartialEq, Eq, Debug)]
pub struct LogSetup {
    /// The filter: which modules are logged, and from which severity on.
    pub filter: String,
    /// The directory that the log files are written to.
    pub directory: StatePath,
    /// The name that each log file starts with.
    pub basename: String,
    pub format: LineFormat,
    pub buffering: Buffering,
}

/// The directory of the log files: `nvim/onoma/logs` below the state
/// directory, or `./onoma/logs` where there is none.
pub open spec fn log_directory_placed(state: Option<Seq<char>>) -> StatePathView {
    placed(state, "nvim/onoma/logs"@, "./onoma/logs"@)
}

/// Decides the directory of the log files from the state directory that was
/// found, if any.
pub fn log_directory(state: Option<String>) -> (directory: StatePath)
    ensures
        directory@ == log_directory_placed(optional_text(state)),
{
    place(state, "nvim/onoma/logs", "./onoma/logs")
}

/// The setup of the log destination: everything of the bridge and of the
/// engine is logged, to files named `bridge` in the log directory, each line
/// with its time and place, through a buffer that is flushed.
pub fn log_setup(state: Option<String>) -> (setup: LogSetup)
    ensures
        setup.filter@ == "onoma_bridge=trace, onoma=trace"@,
        setup.directory@ == log_directory_placed(optional_text(state)),
        setup.basename@ == "bridge"@,
        setup.format == LineFormat::WithTimeAndPlace,
        setup.buffering == Buffering::BufferAndFlush,
{
    LogSetup {
        filter: "onoma_bridge=trace, onoma=trace".to_owned(),
        directory: log_directory(state),
        basename: "bridge".to_owned(),
        format: LineFormat::WithTimeAndPlace,
        buffering: Buffering::BufferAndFlush,
    }
}

/// The state of the sink: whether its destination has been opened and
/// whether its panic hook has been installed.
#[derive(Clone, Copy, PartialEq, Eq, Structural, Debug)]
pub struct Diagnostics {
    pub destination_open: bool,
    pub hook_installed: bool,
}

/// What is to be done to the sink outside this crate.
#[derive(Clone, Copy, PartialEq, Eq, Structural, Debug)]
pub struct SinkAction {
    /// Open the log destination now.
    pub open_destination: bool,
    /// Install the panic hook now.
    pub install_hook: bool,
    /// Force all buffered records to durable storage now.
    pub flush: bool,
}

impl Diagnostics {
    /// The sink after `init`: its destination is open and its hook is
    /// installed.
    pub open spec fn initialised(self) -> Diagnostics {
        Diagnostics { destination_open: true, hook_installed: true }
    }

    /// What `init` asks for in this state: to open the destination unless it
    /// is open, and to install the hook unless it is installed.
    pub open spec fn init_action(self) -> SinkAction {
        SinkAction {
            open_destination: !self.destination_open,
            install_hook: !self.hook_installed,
            flush: false,
        }
    }

    /// The sink after `flush`: its destination is open, its hook is as it
    /// was.
    pub open spec fn flushed(self) -> Diagnostics {
        Diagnostics { destination_open: true, hook_installed: self.hook_installed }
    }

    /// What `flush` asks for in this state: to open the destination unless
    /// it is open, and to flush.
    pub open spec fn flush_action(self) -> SinkAction {
        SinkAction { open_destination: !self.destination_open, install_hook: false, flush: true }
    }

    /// The sink after `count` calls of `init`.
    pub open spec fn after_inits(self, count: nat) -> Diagnostics
        decreases count,
    {
        if count == 0 {
            self
        } else {
            self.initialised().after_inits((count - 1) as nat)
        }
    }

    /// How many times `count` calls of `init` ask for the destination to be
    /// opened.
    pub open spec fn destinations_opened(self, count: nat) -> nat
        decreases count,
    {
        if count == 0 {
            0
        } else {
            let first: nat = if self.init_action().open_destination {
                1
            } else {
                0
            };
            first + self.initialised().destinations_opened((count - 1) as nat)
        }
    }

    /// How many times `count` calls of `init` ask for the hook to be
    /// installed.
    pub open spec fn hooks_installed(self, count: nat) -> nat
        decreases count,
    {
        if count == 0 {
            0
        } else {
            let first: nat = if self.init_action().install_hook {
                1
            } else {
                0
            };
            first + self.initialised().hooks_installed((count - 1) as nat)
        }
    }

    /// A sink of which nothing has been opened or installed.
    pub fn new() -> (sink: Diagnostics)
        ensures
            !sink.destination_open,
            !sink.hook_installed,
    {
        Diagnostics { destination_open: false, hook_installed: false }
    }
}

/// Initialises the sink. The first call asks for the destination to be
/// opened and for the panic hook to be installed; every later call asks for
/// nothing.
pub fn init(sink: &mut Diagnostics) -> (action: SinkAction)
    ensures
        *final(sink) == old(sink).initialised(),
        action == old(sink).init_action(),
{
    let action = SinkAction {
        open_destination: !sink.destination_open,
        install_hook: !sink.hook_installed,
        flush: false,
    };
    sink.destination_open = true;
    sink.hook_installed = true;
    action
}

/// Flushes the sink: asks for all buffered records to be forced to durable
/// storage, after the destination has been opened where it was not.
pub fn flush(sink: &mut Diagnostics) -> (action: SinkAction)
    ensures
        *final(sink) == old(sink).flushed(),
        action == old(sink).flush_action(),
{
    let action = SinkAction {
        open_destination: !sink.destination_open,
        install_hook: false,
        flush: true,
    };
    sink.destination_open = true;
    action
}

/// What a panic carries, as far as it can be read.
#[derive(PartialEq, Eq, Debug)]
pub enum PanicPayload {
    /// A text.
    Text(String),
    /// Anything else.
    Opaque,
}

/// Where in the source a panic occurred.
#[derive(PartialEq, Eq, Debug)]
pub struct PanicLocation {
    pub file: String,
    pub line: u32,
    pub column: u32,
}

/// The human-readable message of a panic: its text, or `Unknown panic` where
/// it carries none.
pub open spec fn panic_message(payload: PanicPayload) -> Seq<char> {
    match payload {
        PanicPayload::Text(text) => text@,
        PanicPayload::Opaque => "Unknown panic"@,
    }
}

/// The place of a panic as text: file, line and column with colons between
/// them, or `unknown`.
pub open spec fn panic_place(location: Option<&PanicLocation>) -> Seq<char> {
    match location {
        Some(location) => location.file@ + ":"@ + decimal_text(location.line as nat) + ":"@
            + decimal_text(location.column as nat),
        None => "unknown"@,
    }
}

/// The text of the record of a panic.
pub open spec fn panic_text(payload: PanicPayload, location: Option<&PanicLocation>) -> Seq<
    char,
> {
    "PANIC: A panic occurred in backend at "@ + panic_place(location) + ": "@ + panic_message(
        payload,
    )
}

/// The record that a panic is logged as: an error that names the place of
/// the panic and gives its message.
pub fn panic_record(payload: &PanicPayload, location: Option<&PanicLocation>) -> (record: Record)
    ensures
        record.severity == Severity::Error,
        record.message@ == panic_text(*payload, location),
{
    let mut text = "PANIC: A panic occurred in backend at ".to_owned();
    match location {
        Some(location) => {
            text.append(location.file.as_str());
            text.append(":");
            text.append(decimal(location.line).as_str());
            text.append(":");
            text.append(decimal(location.column).as_str());
        },
        None => {
            text.append("unknown");
        },
    }
    text.append(": ");
    match payload {
        PanicPayload::Text(message) => {
            text.append(message.as_str());
        },
        PanicPayload::Opaque => {
            text.append("Unknown panic");
        },
    }
    assert(text@ =~= panic_text(*payload, location));
    Record { severity: Severity::Error, message: text }
}

/// However often a sink is initialised, at least once, there is then exactly
/// one log destination and exactly one panic hook, so that a panic is
/// recorded once: what was open or installed before is not opened or
/// installed again, and what was not is opened or installed exactly once. The
/// sink is then as it was after the first call.
pub proof fn init_is_idempotent(sink: Diagnostics, count: nat)
    requires
        count >= 1,
    ensures
        sink.destinations_opened(count) == (if sink.destination_open {
            0nat
        } else {
            1nat
        }),
        sink.hooks_installed(count) == (if sink.hook_installed {
            0nat
        } else {
            1nat
        }),
        sink.after_inits(count) == sink.initialised(),
    decreases count,
{
    if count > 1 {
        init_is_idempotent(sink.initialised(), (count - 1) as nat);
    } else {
        assert(sink.initialised().destinations_opened(0) == 0);
        assert(sink.initialised().hooks_installed(0) == 0);
        assert(sink.initialised().after_inits(0) == sink.initialised());
    }
}

} // verus!
