//! The output streamer: what becomes of each thing read from a process, and
//! of the way the process ended.

use crate::report::{Channel, Emission, EmissionView, Report, ReportView};
use vstd::prelude::*;
use vstd::string::*;

verus! {

/// What reading one stream of a process gave.
#[derive(Clone, Debug, PartialEq, Eq)]
pub enum ReadEvent {
    /// A line, without its line feed.
    Line(String),
    /// The read failed; the text says how.
    Failed(String),
    /// The stream is at its end.
    End,
}

/// A read event as plain values.
pub enum ReadEventView {
    Line(Seq<char>),
    Failed(Seq<char>),
    End,
}

impl View for ReadEvent {
    type V = ReadEventView;

    open spec fn view(&self) -> ReadEventView {
        match *self {
            ReadEvent::Line(text) => ReadEventView::Line(text@),
            ReadEvent::Failed(error) => ReadEventView::Failed(error@),
            ReadEvent::End => ReadEventView::End,
        }
    }
}

/// The state of draining one stream of one process, as plain values.
pub struct DrainView {
    pub label: Seq<char>,
    pub channel: Channel,
    pub open: bool,
}

impl DrainView {
    /// The emission for a line of the process: the line under the label, to
    /// the run's stream of the same kind.
    pub open spec fn line(self, text: Seq<char>) -> EmissionView {
        EmissionView {
            target: self.channel,
            report: ReportView::Line { label: self.label, text },
        }
    }

    /// The emission for a failed read: a diagnostic to the run's standard
    /// error.
    pub open spec fn read_error(self, error: Seq<char>) -> EmissionView {
        EmissionView {
            target: Channel::Stderr,
            report: ReportView::ReadError { label: self.label, channel: self.channel, error },
        }
    }

    /// The drain once its stream is done with.
    pub open spec fn closed(self) -> DrainView {
        DrainView { open: false, ..self }
    }

    /// One step: the state after `event`, and what is emitted for it. A
    /// line is emitted and the drain goes on. A failed read is reported once
    /// and ends the drain, as the end of the stream does in silence. A drain
    /// that has ended takes no further notice of anything.
    pub open spec fn step(self, event: ReadEventView) -> (DrainView, Option<EmissionView>) {
        if !self.open {
            (self, None)
        } else {
            match event {
                ReadEventView::Line(text) => (self, Some(self.line(text))),
                ReadEventView::Failed(error) => (self.closed(), Some(self.read_error(error))),
                ReadEventView::End => (self.closed(), None),
            }
        }
    }

    /// All that is emitted for a sequence of events, in the order of
    /// emission.
    pub open spec fn run(self, events: Seq<ReadEventView>) -> Seq<EmissionView>
        decreases events.len(),
    {
        if events.len() == 0 {
            Seq::empty()
        } else {
            let (next, emitted) = self.step(events[0]);
            let rest = next.run(events.drop_first());
            match emitted {
                Some(emission) => seq![emission] + rest,
                None => rest,
            }
        }
    }
}

/// The lines at the start of `events`, up to the first event that is no line.
pub open spec fn leading_lines(events: Seq<ReadEventView>) -> Seq<Seq<char>>
    decreases events.len(),
{
    if events.len() == 0 {
        Seq::empty()
    } else {
        match events[0] {
            ReadEventView::Line(text) => seq![text] + leading_lines(events.drop_first()),
            _ => Seq::empty(),
        }
    }
}

/// A drain that has ended emits nothing more.
pub proof fn lemma_closed_drain_is_silent(drain: DrainView, events: Seq<ReadEventView>)
    requires
        !drain.open,
    ensures
        drain.run(events).len() == 0,
    decreases events.len(),
{
    if events.len() > 0 {
        lemma_closed_drain_is_silent(drain, events.drop_first());
    }
}

/// The lines of one stream come out in the order in which they were read.
///
/// An open drain emits, for the lines at the start of `events`, one emission
/// each, in their order, under its label and to its own channel. After them
/// it emits at most one thing more: the diagnostic of a failed read, where
/// that is what ended the lines.
pub proof fn lemma_lines_keep_their_order(drain: DrainView, events: Seq<ReadEventView>)
    requires
        drain.open,
    ensures
        leading_lines(events).len() <= drain.run(events).len() <= leading_lines(events).len() + 1,
        forall|i: int|
            0 <= i < leading_lines(events).len() ==> #[trigger] drain.run(events)[i] == drain.line(
                leading_lines(events)[i],
            ),
        drain.run(events).len() > leading_lines(events).len() ==> {
            &&& leading_lines(events).len() < events.len()
            &&& events[leading_lines(events).len() as int] matches ReadEventView::Failed(error)
            &&& drain.run(events).last() == drain.read_error(error)
        },
    decreases events.len(),
{
    if events.len() > 0 {
        let rest = events.drop_first();
        match events[0] {
            ReadEventView::Line(text) => {
                lemma_lines_keep_their_order(drain, rest);
                let lines = leading_lines(events);
                let out = drain.run(events);
                assert(out == seq![drain.line(text)] + drain.run(rest));
                assert forall|i: int| 0 <= i < lines.len() implies #[trigger] out[i] == drain.line(
                    lines[i],
                ) by {
                    if i > 0 {
                        assert(out[i] == drain.run(rest)[i - 1]);
                        assert(lines[i] == leading_lines(rest)[i - 1]);
                    }
                }
                if out.len() > lines.len() {
                    assert(events[lines.len() as int] == rest[leading_lines(rest).len() as int]);
                    assert(out.last() == drain.run(rest).last());
                }
            },
            ReadEventView::Failed(error) => {
                lemma_closed_drain_is_silent(drain.closed(), rest);
                assert(drain.run(events) == seq![drain.read_error(error)]);
            },
            ReadEventView::End => {
                lemma_closed_drain_is_silent(drain.closed(), rest);
            },
        }
    }
}

/// Drains one stream of one process: takes what was read from it, one event
/// at a time, and says what to emit.
#[derive(Debug)]
pub struct Drain {
    label: String,
    channel: Channel,
    open: bool,
}

impl View for Drain {
    type V = DrainView;

    closed spec fn view(&self) -> DrainView {
        DrainView { label: self.label@, channel: self.channel, open: self.open }
    }
}

impl Drain {
    /// An open drain for the stream `channel` of the process with the label
    /// `label`.
    pub fn new(label: &str, channel: Channel) -> (drain: Drain)
        ensures
            drain@ == (DrainView { label: label@, channel, open: true }),
    {
        Drain { label: String::from_str(label), channel, open: true }
    }

    /// Whether the drain still takes events.
    pub fn is_open(&self) -> (open: bool)
        ensures
            open == self@.open,
    {
        self.open
    }

    /// The stream that is drained.
    pub fn channel(&self) -> (channel: Channel)
        ensures
            channel == self@.channel,
    {
        self.channel
    }

    /// The label of the process.
    pub fn label(&self) -> (label: &str)
        ensures
            label@ == self@.label,
    {
        self.label.as_str()
    }

    /// Takes one event and says what to emit for it.
    pub fn accept(&mut self, event: ReadEvent) -> (emitted: Option<Emission>)
        ensures
            (final(self)@, emitted.deep_view()) == old(self)@.step(event@),
    {
        if !self.open {
            return None;
        }
        match event {
            ReadEvent::Line(text) => Some(
                Emission {
                    target: self.channel,
                    report: Report::Line { label: self.label.clone(), text },
                },
            ),
            ReadEvent::Failed(error) => {
                self.open = false;
                Some(
                    Emission {
                        target: Channel::Stderr,
                        report: Report::ReadError {
                            label: self.label.clone(),
                            channel: self.channel,
                            error,
                        },
                    },
                )
            },
            ReadEvent::End => {
                self.open = false;
                None
            },
        }
    }
}

} // verus!
