//! The run supervisor: the phases of a run, and what is to be done next
//! after each thing that happened.
//!
//! The supervisor does nothing itself. Its caller tells it what happened,
//! carries out the directive it answers, and tells it what happened then.

use crate::args::{lemma_no_tokens_iff_blank, tokens};
use crate::outcome::{
    flag_after, lemma_flag_after, WaitOutcomeView, EXIT_INTERRUPTED, EXIT_SUCCESS,
};
use crate::spawner::plans_of;
use crate::text::spec_is_whitespace;
use std::time::Duration;
use vstd::prelude::*;

verus! {

/// Where a run stands.
#[derive(Clone, Copy, Debug, PartialEq, Eq, Structural)]
pub enum Phase {
    /// Nothing has begun.
    Idle,
    /// Processes are being created, one after the other.
    Spawning,
    /// All processes exist; their streamers are being started.
    Streaming,
    /// The streamers run; the supervisor looks in on them.
    Draining,
    /// The run is over.
    Finished,
}

/// How a run ended.
#[derive(Clone, Copy, Debug, PartialEq, Eq, Structural)]
pub enum Ending {
    /// Every process ended without failure, or there was none to run.
    Success,
    /// At least one process failed.
    ProcessFailed,
    /// A process could not be created.
    SpawnFailed,
}

/// Something that happened in a run.
#[derive(Clone, Copy, Debug, PartialEq, Eq, Structural)]
pub enum Event {
    /// The argument line was cut into `tokens` tokens.
    Begin { tokens: usize },
    /// The process that was asked for exists.
    Spawned,
    /// The process that was asked for could not be created.
    SpawnFailed,
    /// A streamer runs for every process.
    Launched,
    /// A look at the run: whether the failure flag is raised, and whether
    /// every streamer has completed.
    Poll { failure_seen: bool, all_done: bool },
    /// The operator asked for an interrupt.
    Interrupted,
}

/// What the caller is to do next.
#[derive(Clone, Copy, Debug, PartialEq, Eq, Structural)]
pub enum Directive {
    /// Tell the operator that there is nothing to run. The run is over.
    NothingToRun,
    /// Create the process for the token at position `index`.
    Spawn { index: usize },
    /// Start a streamer for each of the `count` processes.
    Launch { count: usize },
    /// Ask the `spawned` processes that exist to terminate, and report the
    /// error. The run is over.
    Abort { spawned: usize },
    /// Look at the failure flag and at the streamers now.
    Observe,
    /// Let the polling interval pass, then look again.
    Pause,
    /// Cancel every streamer that still runs. The run is over.
    CancelAll,
    /// Every streamer has completed. The run is over.
    Finish,
    /// Tell the operator that the interrupt was received.
    AnnounceInterrupt,
    /// The event has no place in this phase: do nothing.
    Ignore,
}

impl Ending {
    /// The exit code of a run with this ending: zero for success, one
    /// otherwise.
    pub open spec fn code(self) -> int {
        match self {
            Ending::Success => 0,
            Ending::ProcessFailed => 1,
            Ending::SpawnFailed => 1,
        }
    }

    /// The exit code of a run with this ending.
    pub fn exit_code(self) -> (code: i32)
        ensures
            code == self.code(),
    {
        match self {
            Ending::Success => 0,
            Ending::ProcessFailed => 1,
            Ending::SpawnFailed => 1,
        }
    }
}

/// What a run came to.
#[derive(Clone, Copy, Debug, PartialEq, Eq)]
pub struct RunOutcome {
    /// Whether a process failed.
    pub any_failed: bool,
    /// The time from the beginning of the run to its end.
    pub elapsed: Duration,
}

/// The state of a run as plain values.
pub struct SupervisorView {
    /// The phase of the run.
    pub phase: Phase,
    /// How many processes the run is to have: one for each token.
    pub planned: nat,
    /// How many of them exist.
    pub spawned: nat,
    /// How the run ended, once it has.
    pub ending: Option<Ending>,
}

impl SupervisorView {
    /// The state before anything has happened.
    pub open spec fn fresh() -> SupervisorView {
        SupervisorView { phase: Phase::Idle, planned: 0, spawned: 0, ending: None }
    }

    /// The state of a run that is over.
    pub open spec fn finished(self, ending: Ending) -> SupervisorView {
        SupervisorView { phase: Phase::Finished, ending: Some(ending), ..self }
    }

    /// What holds of every state that a run can be in.
    pub open spec fn wf(self) -> bool {
        &&& self.spawned <= self.planned <= usize::MAX
        &&& match self.phase {
            Phase::Idle => self.planned == 0 && self.ending is None,
            Phase::Spawning => self.spawned < self.planned && self.ending is None,
            Phase::Streaming => self.spawned == self.planned > 0 && self.ending is None,
            Phase::Draining => self.spawned == self.planned > 0 && self.ending is None,
            Phase::Finished => match self.ending {
                Some(Ending::Success) => self.spawned == self.planned,
                Some(Ending::ProcessFailed) => self.spawned == self.planned > 0,
                Some(Ending::SpawnFailed) => self.spawned < self.planned,
                None => false,
            },
        }
    }

    /// One step: the state after `event`, and what is to be done next.
    ///
    /// A run begins once. With no token it is over at once, with success.
    /// Otherwise the processes are asked for one at a time, in the order of
    /// the tokens; the first that cannot be created ends the run. When all
    /// exist the streamers are started, and from then on each look at the
    /// run either ends it, a raised failure flag counting before completion,
    /// or calls for another look after a pause. An interrupt is announced
    /// and changes nothing. An event out of place changes nothing either.
    pub open spec fn step(self, event: Event) -> (SupervisorView, Directive) {
        match (self.phase, event) {
            (Phase::Idle, Event::Begin { tokens }) => if tokens == 0 {
                (self.finished(Ending::Success), Directive::NothingToRun)
            } else {
                (
                    SupervisorView { phase: Phase::Spawning, planned: tokens as nat, ..self },
                    Directive::Spawn { index: 0 },
                )
            },
            (Phase::Spawning, Event::Spawned) => if self.spawned + 1 < self.planned {
                (
                    SupervisorView { spawned: self.spawned + 1, ..self },
                    Directive::Spawn { index: (self.spawned + 1) as usize },
                )
            } else {
                (
                    SupervisorView { phase: Phase::Streaming, spawned: self.spawned + 1, ..self },
                    Directive::Launch { count: (self.spawned + 1) as usize },
                )
            },
            (Phase::Spawning, Event::SpawnFailed) => (
                self.finished(Ending::SpawnFailed),
                Directive::Abort { spawned: self.spawned as usize },
            ),
            (Phase::Streaming, Event::Launched) => (
                SupervisorView { phase: Phase::Draining, ..self },
                Directive::Observe,
            ),
            (Phase::Draining, Event::Poll { failure_seen, all_done }) => if failure_seen {
                (self.finished(Ending::ProcessFailed), Directive::CancelAll)
            } else if all_done {
                (self.finished(Ending::Success), Directive::Finish)
            } else {
                (self, Directive::Pause)
            },
            (Phase::Finished, _) => (self, Directive::Ignore),
            (_, Event::Interrupted) => (self, Directive::AnnounceInterrupt),
            _ => (self, Directive::Ignore),
        }
    }

    /// The state after a sequence of events, and the directives that were
    /// given on the way, in their order.
    pub open spec fn run(self, events: Seq<Event>) -> (SupervisorView, Seq<Directive>)
        decreases events.len(),
    {
        if events.len() == 0 {
            (self, Seq::empty())
        } else {
            let (before, given) = self.run(events.drop_last());
            let (after, directive) = before.step(events.last());
            (after, given.push(directive))
        }
    }
}

/// The events of a spawning phase in which all goes well: the beginning with
/// `planned` tokens, then `spawned` processes created.
pub open spec fn spawning_events(planned: usize, spawned: nat) -> Seq<Event> {
    seq![Event::Begin { tokens: planned }] + Seq::new(spawned, |i: int| Event::Spawned)
}

/// A step leads from a possible state to a possible state.
pub proof fn lemma_step_keeps_wf(state: SupervisorView, event: Event)
    requires
        state.wf(),
    ensures
        state.step(event).0.wf(),
{
}

/// Whatever happens, a run is in a possible state: no more processes exist
/// than there are tokens, streamers run only when there is a process for
/// every token, and a run that ended otherwise than by a failed spawn had a
/// process for every token.
pub proof fn lemma_run_keeps_wf(events: Seq<Event>)
    ensures
        SupervisorView::fresh().run(events).0.wf(),
    decreases events.len(),
{
    if events.len() > 0 {
        lemma_run_keeps_wf(events.drop_last());
        lemma_step_keeps_wf(SupervisorView::fresh().run(events.drop_last()).0, events.last());
    }
}

/// A run that is over stays as it is.
pub proof fn lemma_finished_is_final(state: SupervisorView, event: Event)
    requires
        state.phase == Phase::Finished,
    ensures
        state.step(event) == (state, Directive::Ignore),
{
}

/// After its end a run gives no directive but to do nothing. So once a
/// process could not be created, no streamer is ever started.
pub proof fn lemma_nothing_follows_the_end(state: SupervisorView, events: Seq<Event>)
    requires
        state.phase == Phase::Finished,
    ensures
        state.run(events).0 == state,
        state.run(events).1.len() == events.len(),
        forall|i: int| 0 <= i < events.len() ==> #[trigger] state.run(events).1[i] == Directive::Ignore,
    decreases events.len(),
{
    if events.len() > 0 {
        lemma_nothing_follows_the_end(state, events.drop_last());
    }
}

/// The ending of a run never changes once it is there.
pub proof fn lemma_ending_is_kept(state: SupervisorView, event: Event)
    requires
        state.wf(),
        state.ending is Some,
    ensures
        state.step(event).0.ending == state.ending,
{
}

/// Processes are asked for in the order of the tokens, one for each.
///
/// In a run of `planned` tokens in which `spawned` processes have been
/// created without failure, as many exist as were created. While some are
/// missing, the directive is to create the one for the next position; once
/// none is, it is to start the streamers, one for each token.
pub proof fn lemma_one_spawn_for_each_token(planned: usize, spawned: nat)
    requires
        0 < planned,
        spawned <= planned,
    ensures
        ({
            let (state, given) = SupervisorView::fresh().run(spawning_events(planned, spawned));
            &&& state.planned == planned
            &&& state.spawned == spawned
            &&& state.ending is None
            &&& state.phase == if spawned < planned {
                Phase::Spawning
            } else {
                Phase::Streaming
            }
            &&& given.len() == spawned + 1
            &&& forall|i: int| 0 <= i < spawned + 1 && i < planned ==> #[trigger] given[i] == (Directive::Spawn { index: i as usize })
            &&& spawned == planned ==> given[spawned as int] == (Directive::Launch {
                count: planned,
            })
        }),
    decreases spawned,
{
    let events = spawning_events(planned, spawned);
    if spawned == 0 {
        assert(events.drop_last() == Seq::<Event>::empty());
        assert(SupervisorView::fresh().run(events.drop_last()).1 == Seq::<Directive>::empty());
    } else {
        lemma_one_spawn_for_each_token(planned, (spawned - 1) as nat);
        assert(events.drop_last() == spawning_events(planned, (spawned - 1) as nat));
        assert(events.last() == Event::Spawned);
    }
}

/// A line without tokens, be it empty or all white space, gives a run
/// without a process that is over at once, with exit code zero.
pub proof fn lemma_blank_line_runs_nothing(command: Seq<char>, line: Seq<char>)
    requires
        forall|k: int| 0 <= k < line.len() ==> spec_is_whitespace(#[trigger] line[k]),
    ensures
        tokens(line).len() == 0,
        plans_of(command, tokens(line)).len() == 0,
        ({
            let (state, directive) = SupervisorView::fresh().step(Event::Begin { tokens: 0 });
            &&& directive == Directive::NothingToRun
            &&& state.phase == Phase::Finished
            &&& state.spawned == 0
            &&& state.ending == Some(Ending::Success)
            &&& Ending::Success.code() == 0
        }),
{
    lemma_no_tokens_iff_blank(line);
}

/// Where every process exits with code zero, the failure flag stays lowered,
/// and the look at the completed run ends it with exit code zero.
pub proof fn lemma_clean_exits_end_in_success(state: SupervisorView, outcomes: Seq<WaitOutcomeView>)
    requires
        state.phase == Phase::Draining,
        forall|i: int| 0 <= i < outcomes.len() ==> (#[trigger] outcomes[i]).exited_with(EXIT_SUCCESS),
    ensures
        !flag_after(false, outcomes),
        ({
            let (after, directive) = state.step(
                Event::Poll { failure_seen: flag_after(false, outcomes), all_done: true },
            );
            &&& directive == Directive::Finish
            &&& after.phase == Phase::Finished
            &&& after.ending == Some(Ending::Success)
            &&& Ending::Success.code() == 0
        }),
{
    lemma_flag_after(false, outcomes);
}

/// Where a process exits with a code that is neither zero nor that of an
/// interrupt, the failure flag is raised, and the next look at the run ends
/// it with an exit code other than zero, whether or not the other processes
/// have ended.
pub proof fn lemma_failed_exit_ends_in_failure(
    state: SupervisorView,
    outcomes: Seq<WaitOutcomeView>,
    failing: int,
    code: i32,
    all_done: bool,
)
    requires
        state.phase == Phase::Draining,
        0 <= failing < outcomes.len(),
        outcomes[failing].exited_with(code),
        code != EXIT_SUCCESS,
        code != EXIT_INTERRUPTED,
    ensures
        flag_after(false, outcomes),
        ({
            let (after, directive) = state.step(
                Event::Poll { failure_seen: flag_after(false, outcomes), all_done },
            );
            &&& directive == Directive::CancelAll
            &&& after.phase == Phase::Finished
            &&& after.ending == Some(Ending::ProcessFailed)
            &&& Ending::ProcessFailed.code() != 0
        }),
{
    lemma_flag_after(false, outcomes);
    assert(outcomes[failing].is_failure());
}

/// Follows one run from its beginning to its end.
#[derive(Debug)]
pub struct Supervisor {
    phase: Phase,
    planned: usize,
    spawned: usize,
    ending: Option<Ending>,
}

impl View for Supervisor {
    type V = SupervisorView;

    closed spec fn view(&self) -> SupervisorView {
        SupervisorView {
            phase: self.phase,
            planned: self.planned as nat,
            spawned: self.spawned as nat,
            ending: self.ending,
        }
    }
}

impl Supervisor {
    #[verifier::type_invariant]
    spec fn valid(&self) -> bool {
        self@.wf()
    }

    /// A supervisor for a run that has not begun.
    pub fn new() -> (supervisor: Supervisor)
        ensures
            supervisor@ == SupervisorView::fresh(),
    {
        Supervisor { phase: Phase::Idle, planned: 0, spawned: 0, ending: None }
    }

    /// The phase of the run.
    pub fn phase(&self) -> (phase: Phase)
        ensures
            phase == self@.phase,
            self@.wf(),
    {
        proof {
            use_type_invariant(self);
        }
        self.phase
    }

    /// How many processes the run is to have.
    pub fn planned(&self) -> (planned: usize)
        ensures
            planned == self@.planned,
            self@.wf(),
    {
        proof {
            use_type_invariant(self);
        }
        self.planned
    }

    /// How many processes exist.
    pub fn spawned(&self) -> (spawned: usize)
        ensures
            spawned == self@.spawned,
            self@.wf(),
    {
        proof {
            use_type_invariant(self);
        }
        self.spawned
    }

    /// How the run ended, once it has.
    pub fn ending(&self) -> (ending: Option<Ending>)
        ensures
            ending == self@.ending,
            self@.wf(),
    {
        proof {
            use_type_invariant(self);
        }
        self.ending
    }

    /// What the run came to, once it is over: whether a process failed,
    /// with the time that the caller measured.
    pub fn outcome(&self, elapsed: Duration) -> (outcome: Option<RunOutcome>)
        ensures
            outcome == match self@.ending {
                Some(ending) => Some(
                    RunOutcome { any_failed: ending == Ending::ProcessFailed, elapsed },
                ),
                None => None,
            },
    {
        match self.ending {
            Some(ending) => Some(
                RunOutcome { any_failed: matches!(ending, Ending::ProcessFailed), elapsed },
            ),
            None => None,
        }
    }

    /// Takes note of what happened and says what to do next.
    pub fn step(&mut self, event: Event) -> (directive: Directive)
        ensures
            (final(self)@, directive) == old(self)@.step(event),
            final(self)@.wf(),
    {
        proof {
            use_type_invariant(&*self);
        }
        match (self.phase, event) {
            (Phase::Idle, Event::Begin { tokens }) => {
                if tokens == 0 {
                    self.finish(Ending::Success);
                    Directive::NothingToRun
                } else {
                    *self = Supervisor {
                        phase: Phase::Spawning,
                        planned: tokens,
                        spawned: self.spawned,
                        ending: self.ending,
                    };
                    Directive::Spawn { index: 0 }
                }
            },
            (Phase::Spawning, Event::Spawned) => {
                let spawned = self.spawned + 1;
                if spawned < self.planned {
                    *self = Supervisor {
                        phase: Phase::Spawning,
                        planned: self.planned,
                        spawned,
                        ending: self.ending,
                    };
                    Directive::Spawn { index: spawned }
                } else {
                    *self = Supervisor {
                        phase: Phase::Streaming,
                        planned: self.planned,
                        spawned,
                        ending: self.ending,
                    };
                    Directive::Launch { count: spawned }
                }
            },
            (Phase::Spawning, Event::SpawnFailed) => {
                self.finish(Ending::SpawnFailed);
                Directive::Abort { spawned: self.spawned }
            },
            (Phase::Streaming, Event::Launched) => {
                *self = Supervisor {
                    phase: Phase::Draining,
                    planned: self.planned,
                    spawned: self.spawned,
                    ending: self.ending,
                };
                Directive::Observe
            },
            (Phase::Draining, Event::Poll { failure_seen, all_done }) => {
                if failure_seen {
                    self.finish(Ending::ProcessFailed);
                    Directive::CancelAll
                } else if all_done {
                    self.finish(Ending::Success);
                    Directive::Finish
                } else {
                    Directive::Pause
                }
            },
            (Phase::Finished, _) => Directive::Ignore,
            (_, Event::Interrupted) => Directive::AnnounceInterrupt,
            _ => Directive::Ignore,
        }
    }

    /// Ends the run.
    fn finish(&mut self, ending: Ending)
        requires
            old(self)@.finished(ending).wf(),
        ensures
            final(self)@ == old(self)@.finished(ending),
    {
        *self = Supervisor {
            phase: Phase::Finished,
            planned: self.planned,
            spawned: self.spawned,
            ending: Some(ending),
        };
    }
}

} // verus!
