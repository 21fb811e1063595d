//! How a process ended, whether that counts as a failure, and the flag by
//! which one failure becomes known to the whole run.

use crate::report::{Report, ReportView};
use vstd::prelude::*;
use vstd::string::*;

verus! {

/// The exit code of a process that ended well.
pub const EXIT_SUCCESS: i32 = 0;

/// The exit code of a process that an interrupt from the operator ended.
pub const EXIT_INTERRUPTED: i32 = 130;

/// Whether an exit with `code` is a failure. `None` stands for an end
/// without an exit code, as after a signal. Every end is a failure but an
/// exit with the code of success or with the code of an interrupt.
pub open spec fn exit_is_failure(code: Option<i32>) -> bool {
    code != Some(EXIT_SUCCESS) && code != Some(EXIT_INTERRUPTED)
}

/// What waiting for the end of a process gave.
#[derive(Clone, Debug, PartialEq, Eq)]
pub enum WaitOutcome {
    /// The process ended; `status` is its exit status as text.
    Exited { code: Option<i32>, status: String },
    /// The wait itself failed; `error` says how.
    Failed { error: String },
}

/// A wait outcome as plain values.
pub enum WaitOutcomeView {
    Exited { code: Option<i32>, status: Seq<char> },
    Failed { error: Seq<char> },
}

impl View for WaitOutcome {
    type V = WaitOutcomeView;

    open spec fn view(&self) -> WaitOutcomeView {
        match *self {
            WaitOutcome::Exited { code, status } => WaitOutcomeView::Exited {
                code,
                status: status@,
            },
            WaitOutcome::Failed { error } => WaitOutcomeView::Failed { error: error@ },
        }
    }
}

impl WaitOutcomeView {
    /// Whether the process ended with the exit code `code`.
    pub open spec fn exited_with(self, code: i32) -> bool {
        match self {
            WaitOutcomeView::Exited { code: c, .. } => c == Some(code),
            WaitOutcomeView::Failed { .. } => false,
        }
    }

    /// Whether the outcome is a failure of the process: an exit that is one,
    /// or a wait that failed.
    pub open spec fn is_failure(self) -> bool {
        match self {
            WaitOutcomeView::Exited { code, .. } => exit_is_failure(code),
            WaitOutcomeView::Failed { .. } => true,
        }
    }

    /// The diagnostic that the outcome calls for: none unless it is a
    /// failure.
    pub open spec fn diagnostic(self, label: Seq<char>, command: Seq<char>) -> Option<
        ReportView,
    > {
        match self {
            WaitOutcomeView::Exited { code, status } => if exit_is_failure(code) {
                Some(ReportView::ExitStatus { label, status, command })
            } else {
                None
            },
            WaitOutcomeView::Failed { error } => Some(
                ReportView::WaitError { label, error, command },
            ),
        }
    }
}

/// No failure goes unreported: an outcome calls for a diagnostic exactly
/// when it is a failure, and the diagnostic is about the process that failed.
pub proof fn lemma_every_failure_is_reported(
    outcome: WaitOutcomeView,
    label: Seq<char>,
    command: Seq<char>,
)
    ensures
        outcome.diagnostic(label, command) is Some <==> outcome.is_failure(),
        outcome.is_failure() ==> outcome.diagnostic(label, command)->0.label() == label,
{
}

/// What the end of one process means for the run.
#[derive(Clone, Debug, PartialEq, Eq)]
pub struct Verdict {
    /// Whether the process failed.
    pub failed: bool,
    /// The diagnostic for the run's standard error, if there is one.
    pub diagnostic: Option<Report>,
}

/// Tells whether an exit with `code` is a failure.
pub fn is_failure_exit(code: Option<i32>) -> (failed: bool)
    ensures
        failed == exit_is_failure(code),
{
    match code {
        Some(c) => c != EXIT_SUCCESS && c != EXIT_INTERRUPTED,
        None => true,
    }
}

/// Judges the end of the process with the label `label`, which ran
/// `command`.
pub fn conclude(label: &str, command: &str, outcome: WaitOutcome) -> (verdict: Verdict)
    ensures
        verdict.failed == outcome@.is_failure(),
        verdict.diagnostic.deep_view() == outcome@.diagnostic(label@, command@),
{
    match outcome {
        WaitOutcome::Exited { code, status } => {
            if is_failure_exit(code) {
                Verdict {
                    failed: true,
                    diagnostic: Some(
                        Report::ExitStatus {
                            label: String::from_str(label),
                            status,
                            command: String::from_str(command),
                        },
                    ),
                }
            } else {
                Verdict { failed: false, diagnostic: None }
            }
        },
        WaitOutcome::Failed { error } => Verdict {
            failed: true,
            diagnostic: Some(
                Report::WaitError {
                    label: String::from_str(label),
                    error,
                    command: String::from_str(command),
                },
            ),
        },
    }
}

/// The run's failure flag: lowered at first, raised by the first failure,
/// and never lowered again.
#[derive(Debug)]
pub struct FailureFlag {
    raised: bool,
}

impl View for FailureFlag {
    type V = bool;

    closed spec fn view(&self) -> bool {
        self.raised
    }
}

impl FailureFlag {
    /// A lowered flag.
    pub fn new() -> (flag: FailureFlag)
        ensures
            !flag@,
    {
        FailureFlag { raised: false }
    }

    /// Whether the flag is raised.
    pub fn is_raised(&self) -> (raised: bool)
        ensures
            raised == self@,
    {
        self.raised
    }

    /// Raises the flag.
    pub fn raise(&mut self)
        ensures
            final(self)@,
    {
        self.raised = true;
    }

    /// Takes note of the end of one process: a failure raises the flag,
    /// anything else leaves it as it is.
    pub fn record(&mut self, verdict: &Verdict)
        ensures
            final(self)@ == (old(self)@ || verdict.failed),
    {
        if verdict.failed {
            self.raised = true;
        }
    }
}

/// The flag after the outcomes `outcomes` have been recorded one by one on a
/// flag that was `raised` before.
pub open spec fn flag_after(raised: bool, outcomes: Seq<WaitOutcomeView>) -> bool
    decreases outcomes.len(),
{
    if outcomes.len() == 0 {
        raised
    } else {
        flag_after(raised || outcomes[0].is_failure(), outcomes.drop_first())
    }
}

/// The flag is raised exactly when it was raised before or one of the
/// outcomes recorded is a failure.
pub proof fn lemma_flag_after(raised: bool, outcomes: Seq<WaitOutcomeView>)
    ensures
        flag_after(raised, outcomes) <==> raised || exists|i: int|
            0 <= i < outcomes.len() && (#[trigger] outcomes[i]).is_failure(),
    decreases outcomes.len(),
{
    if outcomes.len() > 0 {
        let rest = outcomes.drop_first();
        lemma_flag_after(raised || outcomes[0].is_failure(), rest);
        if flag_after(raised, outcomes) && !raised && !outcomes[0].is_failure() {
            let i = choose|i: int| 0 <= i < rest.len() && (#[trigger] rest[i]).is_failure();
            assert(outcomes[i + 1].is_failure());
        }
        if exists|i: int| 0 <= i < outcomes.len() && (#[trigger] outcomes[i]).is_failure() {
            let i = choose|i: int| 0 <= i < outcomes.len() && (#[trigger] outcomes[i]).is_failure();
            if i > 0 {
                assert(rest[i - 1].is_failure());
            }
        }
    }
}

/// Once raised, the flag stays raised whatever is recorded after.
pub proof fn lemma_flag_stays_raised(
    raised: bool,
    before: Seq<WaitOutcomeView>,
    after: Seq<WaitOutcomeView>,
)
    requires
        flag_after(raised, before),
    ensures
        flag_after(raised, before + after),
{
    lemma_flag_after(raised, before);
    lemma_flag_after(raised, before + after);
    if !raised {
        let i = choose|i: int| 0 <= i < before.len() && (#[trigger] before[i]).is_failure();
        assert((before + after)[i].is_failure());
    }
}

/// A process that ends with the code of an interrupt never raises the flag.
pub proof fn lemma_interrupt_leaves_flag(
    raised: bool,
    outcomes: Seq<WaitOutcomeView>,
    last: WaitOutcomeView,
)
    requires
        last.exited_with(EXIT_INTERRUPTED),
    ensures
        !last.is_failure(),
        flag_after(raised, outcomes.push(last)) == flag_after(raised, outcomes),
{
    let all = outcomes.push(last);
    lemma_flag_after(raised, outcomes);
    lemma_flag_after(raised, all);
    if flag_after(raised, outcomes) && !raised {
        let i = choose|i: int| 0 <= i < outcomes.len() && (#[trigger] outcomes[i]).is_failure();
        assert(all[i].is_failure());
    }
    if flag_after(raised, all) && !raised {
        let i = choose|i: int| 0 <= i < all.len() && (#[trigger] all[i]).is_failure();
        assert(i < outcomes.len());
        assert(outcomes[i].is_failure());
    }
}

} // verus!
