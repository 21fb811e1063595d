//! What a run tells its operator: the lines of its processes, and the
//! diagnostics about them.

use crate::paint::{in_bright_blue, in_red, in_yellow, painted, Tint};
use vstd::prelude::*;
use vstd::string::*;

verus! {

/// One of the two output streams, of a process or of the run itself.
#[derive(Clone, Copy, Debug, PartialEq, Eq, Structural)]
pub enum Channel {
    Stdout,
    Stderr,
}

impl Channel {
    /// The name of the stream in a diagnostic.
    pub open spec fn name(self) -> Seq<char> {
        match self {
            Channel::Stdout => "stdout"@,
            Channel::Stderr => "stderr"@,
        }
    }

    /// The name of the stream in a diagnostic.
    pub fn name_text(self) -> (text: &'static str)
        ensures
            text@ == self.name(),
    {
        match self {
            Channel::Stdout => "stdout",
            Channel::Stderr => "stderr",
        }
    }
}

/// A line of a process behind its label.
pub open spec fn line_text(label: Seq<char>, text: Seq<char>) -> Seq<char> {
    label + " - "@ + text
}

/// The diagnostic for a stream that could not be read.
pub open spec fn read_error_text(label: Seq<char>, channel: Channel, error: Seq<char>) -> Seq<
    char,
> {
    label + " Error reading "@ + channel.name() + ": "@ + error
}

/// The diagnostic for a process that ended badly.
pub open spec fn exit_status_text(label: Seq<char>, status: Seq<char>, command: Seq<char>) -> Seq<
    char,
> {
    label + " - Process exited with status: "@ + status + " (command: "@ + command + ")"@
}

/// The diagnostic for a process whose end could not be awaited.
pub open spec fn wait_error_text(label: Seq<char>, error: Seq<char>, command: Seq<char>) -> Seq<
    char,
> {
    label + " Error waiting for process: "@ + error + " (command: "@ + command + ")"@
}

/// Lays out a line of a process behind its label.
pub fn line_layout(label: &str, text: &str) -> (out: String)
    ensures
        out@ == line_text(label@, text@),
{
    let mut out = String::from_str(label);
    out.append(" - ");
    out.append(text);
    out
}

/// Lays out the diagnostic for a stream that could not be read.
pub fn read_error_layout(label: &str, channel: Channel, error: &str) -> (out: String)
    ensures
        out@ == read_error_text(label@, channel, error@),
{
    let mut out = String::from_str(label);
    out.append(" Error reading ");
    out.append(channel.name_text());
    out.append(": ");
    out.append(error);
    out
}

/// Lays out the diagnostic for a process that ended badly.
pub fn exit_status_layout(label: &str, status: &str, command: &str) -> (out: String)
    ensures
        out@ == exit_status_text(label@, status@, command@),
{
    let mut out = String::from_str(label);
    out.append(" - Process exited with status: ");
    out.append(status);
    out.append(" (command: ");
    out.append(command);
    out.append(")");
    out
}

/// Lays out the diagnostic for a process whose end could not be awaited.
pub fn wait_error_layout(label: &str, error: &str, command: &str) -> (out: String)
    ensures
        out@ == wait_error_text(label@, error@, command@),
{
    let mut out = String::from_str(label);
    out.append(" Error waiting for process: ");
    out.append(error);
    out.append(" (command: ");
    out.append(command);
    out.append(")");
    out
}

/// Something to tell the operator about one process.
#[derive(Clone, Debug, PartialEq, Eq)]
pub enum Report {
    /// A line that the process wrote.
    Line { label: String, text: String },
    /// One of its streams could not be read.
    ReadError { label: String, channel: Channel, error: String },
    /// It ended with a status that counts as a failure.
    ExitStatus { label: String, status: String, command: String },
    /// Its end could not be awaited.
    WaitError { label: String, error: String, command: String },
}

/// A report as plain text values.
pub enum ReportView {
    Line { label: Seq<char>, text: Seq<char> },
    ReadError { label: Seq<char>, channel: Channel, error: Seq<char> },
    ExitStatus { label: Seq<char>, status: Seq<char>, command: Seq<char> },
    WaitError { label: Seq<char>, error: Seq<char>, command: Seq<char> },
}

impl View for Report {
    type V = ReportView;

    open spec fn view(&self) -> ReportView {
        match *self {
            Report::Line { label, text } => ReportView::Line { label: label@, text: text@ },
            Report::ReadError { label, channel, error } => ReportView::ReadError {
                label: label@,
                channel,
                error: error@,
            },
            Report::ExitStatus { label, status, command } => ReportView::ExitStatus {
                label: label@,
                status: status@,
                command: command@,
            },
            Report::WaitError { label, error, command } => ReportView::WaitError {
                label: label@,
                error: error@,
                command: command@,
            },
        }
    }
}

impl DeepView for Report {
    type V = ReportView;

    open spec fn deep_view(&self) -> ReportView {
        self@
    }
}

impl ReportView {
    /// The label of the process that the report is about.
    pub open spec fn label(self) -> Seq<char> {
        match self {
            ReportView::Line { label, .. } => label,
            ReportView::ReadError { label, .. } => label,
            ReportView::ExitStatus { label, .. } => label,
            ReportView::WaitError { label, .. } => label,
        }
    }

    /// The report as one line of text without colour.
    pub open spec fn plain(self) -> Seq<char> {
        match self {
            ReportView::Line { label, text } => line_text(label, text),
            ReportView::ReadError { label, channel, error } => read_error_text(
                label,
                channel,
                error,
            ),
            ReportView::ExitStatus { label, status, command } => exit_status_text(
                label,
                status,
                command,
            ),
            ReportView::WaitError { label, error, command } => wait_error_text(
                label,
                error,
                command,
            ),
        }
    }

    /// Whether `out` is a way in which the report may come out on a
    /// terminal: the layout of `plain`, with the label in bright blue, an
    /// error or a status in red and a command in yellow. The text of a line
    /// is never coloured.
    pub open spec fn shown_as(self, out: Seq<char>) -> bool {
        match self {
            ReportView::Line { label, text } => line_shown_as(label, text, out),
            ReportView::ReadError { label, channel, error } => read_error_shown_as(
                label,
                channel,
                error,
                out,
            ),
            ReportView::ExitStatus { label, status, command } => exit_status_shown_as(
                label,
                status,
                command,
                out,
            ),
            ReportView::WaitError { label, error, command } => wait_error_shown_as(
                label,
                error,
                command,
                out,
            ),
        }
    }
}

/// Whether `out` is a line of a process with its label in colour.
pub open spec fn line_shown_as(label: Seq<char>, text: Seq<char>, out: Seq<char>) -> bool {
    exists|l: Seq<char>|
        #![trigger painted(label, Tint::BrightBlue, l)]
        painted(label, Tint::BrightBlue, l) && out == line_text(l, text)
}

/// Whether `out` is the diagnostic of an unreadable stream with its parts in
/// colour.
pub open spec fn read_error_shown_as(
    label: Seq<char>,
    channel: Channel,
    error: Seq<char>,
    out: Seq<char>,
) -> bool {
    exists|l: Seq<char>, e: Seq<char>|
        #![trigger painted(label, Tint::BrightBlue, l), painted(error, Tint::Red, e)]
        painted(label, Tint::BrightBlue, l) && painted(error, Tint::Red, e) && out
            == read_error_text(l, channel, e)
}

/// Whether `out` is the diagnostic of a bad end with its parts in colour.
pub open spec fn exit_status_shown_as(
    label: Seq<char>,
    status: Seq<char>,
    command: Seq<char>,
    out: Seq<char>,
) -> bool {
    exists|l: Seq<char>, s: Seq<char>, c: Seq<char>|
        #![trigger
            painted(label, Tint::BrightBlue, l),
            painted(status, Tint::Red, s),
            painted(command, Tint::Yellow, c)]
        painted(label, Tint::BrightBlue, l) && painted(status, Tint::Red, s) && painted(
            command,
            Tint::Yellow,
            c,
        ) && out == exit_status_text(l, s, c)
}

/// Whether `out` is the diagnostic of a failed wait with its parts in colour.
pub open spec fn wait_error_shown_as(
    label: Seq<char>,
    error: Seq<char>,
    command: Seq<char>,
    out: Seq<char>,
) -> bool {
    exists|l: Seq<char>, e: Seq<char>, c: Seq<char>|
        #![trigger
            painted(label, Tint::BrightBlue, l),
            painted(error, Tint::Red, e),
            painted(command, Tint::Yellow, c)]
        painted(label, Tint::BrightBlue, l) && painted(error, Tint::Red, e) && painted(
            command,
            Tint::Yellow,
            c,
        ) && out == wait_error_text(l, e, c)
}

/// The plain text of a report is one of the ways in which it may come out on
/// a terminal: the one without colour.
pub proof fn lemma_plain_is_a_rendering(report: ReportView)
    ensures
        report.shown_as(report.plain()),
{
    match report {
        ReportView::Line { label, text } => {
            assert(painted(label, Tint::BrightBlue, label));
        },
        ReportView::ReadError { label, channel, error } => {
            assert(painted(label, Tint::BrightBlue, label) && painted(error, Tint::Red, error));
        },
        ReportView::ExitStatus { label, status, command } => {
            assert(painted(label, Tint::BrightBlue, label) && painted(status, Tint::Red, status)
                && painted(command, Tint::Yellow, command));
        },
        ReportView::WaitError { label, error, command } => {
            assert(painted(label, Tint::BrightBlue, label) && painted(error, Tint::Red, error)
                && painted(command, Tint::Yellow, command));
        },
    }
}

impl Report {
    /// The report as one line of text without colour.
    pub fn plain(&self) -> (out: String)
        ensures
            out@ == self@.plain(),
    {
        match self {
            Report::Line { label, text } => line_layout(label.as_str(), text.as_str()),
            Report::ReadError { label, channel, error } => read_error_layout(
                label.as_str(),
                *channel,
                error.as_str(),
            ),
            Report::ExitStatus { label, status, command } => exit_status_layout(
                label.as_str(),
                status.as_str(),
                command.as_str(),
            ),
            Report::WaitError { label, error, command } => wait_error_layout(
                label.as_str(),
                error.as_str(),
                command.as_str(),
            ),
        }
    }

    /// The report as one line for a terminal, its parts in colour where the
    /// terminal takes colour.
    pub fn render(&self) -> (out: String)
        ensures
            self@.shown_as(out@),
    {
        match self {
            Report::Line { label, text } => {
                let l = in_bright_blue(label.as_str());
                line_layout(l.as_str(), text.as_str())
            },
            Report::ReadError { label, channel, error } => {
                let l = in_bright_blue(label.as_str());
                let e = in_red(error.as_str());
                read_error_layout(l.as_str(), *channel, e.as_str())
            },
            Report::ExitStatus { label, status, command } => {
                let l = in_bright_blue(label.as_str());
                let s = in_red(status.as_str());
                let c = in_yellow(command.as_str());
                exit_status_layout(l.as_str(), s.as_str(), c.as_str())
            },
            Report::WaitError { label, error, command } => {
                let l = in_bright_blue(label.as_str());
                let e = in_red(error.as_str());
                let c = in_yellow(command.as_str());
                wait_error_layout(l.as_str(), e.as_str(), c.as_str())
            },
        }
    }
}

/// A report on its way to one of the run's own streams.
#[derive(Clone, Debug, PartialEq, Eq)]
pub struct Emission {
    pub target: Channel,
    pub report: Report,
}

/// An emission as plain values.
pub struct EmissionView {
    pub target: Channel,
    pub report: ReportView,
}

impl View for Emission {
    type V = EmissionView;

    open spec fn view(&self) -> EmissionView {
        EmissionView { target: self.target, report: self.report@ }
    }
}

impl DeepView for Emission {
    type V = EmissionView;

    open spec fn deep_view(&self) -> EmissionView {
        self@
    }
}

} // verus!
