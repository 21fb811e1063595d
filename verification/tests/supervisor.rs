use parallel::supervisor::{Directive, Ending, Event, Phase, RunOutcome, Supervisor};
use std::time::Duration;

fn draining(tokens: usize) -> Supervisor {
    let mut supervisor = Supervisor::new();
    supervisor.step(Event::Begin { tokens });
    let mut n = 0;
    while n < tokens {
        supervisor.step(Event::Spawned);
        n += 1;
    }
    supervisor.step(Event::Launched);
    supervisor
}

#[test]
fn new_supervisor_is_idle() {
    let supervisor = Supervisor::new();
    assert_eq!(supervisor.phase(), Phase::Idle);
    assert_eq!(supervisor.planned(), 0);
    assert_eq!(supervisor.spawned(), 0);
    assert_eq!(supervisor.ending(), None);
    assert_eq!(supervisor.outcome(Duration::from_millis(5)), None);
}

#[test]
fn exit_codes_of_the_endings() {
    assert_eq!(Ending::Success.exit_code(), 0);
    assert_eq!(Ending::ProcessFailed.exit_code(), 1);
    assert_eq!(Ending::SpawnFailed.exit_code(), 1);
}

#[test]
fn begin_without_tokens_finishes_at_once_with_success() {
    let mut supervisor = Supervisor::new();
    assert_eq!(supervisor.step(Event::Begin { tokens: 0 }), Directive::NothingToRun);
    assert_eq!(supervisor.phase(), Phase::Finished);
    assert_eq!(supervisor.spawned(), 0);
    assert_eq!(supervisor.ending(), Some(Ending::Success));
    assert_eq!(
        supervisor.outcome(Duration::from_millis(0)),
        Some(RunOutcome { any_failed: false, elapsed: Duration::from_millis(0) })
    );
}

#[test]
fn spawns_are_asked_for_in_token_order() {
    let mut supervisor = Supervisor::new();
    assert_eq!(supervisor.step(Event::Begin { tokens: 3 }), Directive::Spawn { index: 0 });
    assert_eq!(supervisor.phase(), Phase::Spawning);
    assert_eq!(supervisor.planned(), 3);
    assert_eq!(supervisor.step(Event::Spawned), Directive::Spawn { index: 1 });
    assert_eq!(supervisor.spawned(), 1);
    assert_eq!(supervisor.step(Event::Spawned), Directive::Spawn { index: 2 });
    assert_eq!(supervisor.spawned(), 2);
    assert_eq!(supervisor.step(Event::Spawned), Directive::Launch { count: 3 });
    assert_eq!(supervisor.spawned(), 3);
    assert_eq!(supervisor.phase(), Phase::Streaming);
}

#[test]
fn a_single_token_launches_after_one_spawn() {
    let mut supervisor = Supervisor::new();
    assert_eq!(supervisor.step(Event::Begin { tokens: 1 }), Directive::Spawn { index: 0 });
    assert_eq!(supervisor.step(Event::Spawned), Directive::Launch { count: 1 });
    assert_eq!(supervisor.step(Event::Launched), Directive::Observe);
    assert_eq!(supervisor.phase(), Phase::Draining);
}

#[test]
fn failed_spawn_aborts_the_run() {
    let mut supervisor = Supervisor::new();
    supervisor.step(Event::Begin { tokens: 3 });
    supervisor.step(Event::Spawned);
    assert_eq!(supervisor.step(Event::SpawnFailed), Directive::Abort { spawned: 1 });
    assert_eq!(supervisor.phase(), Phase::Finished);
    assert_eq!(supervisor.ending(), Some(Ending::SpawnFailed));
    assert_eq!(supervisor.spawned(), 1);
    assert_eq!(
        supervisor.outcome(Duration::from_millis(12)),
        Some(RunOutcome { any_failed: false, elapsed: Duration::from_millis(12) })
    );
    assert_eq!(supervisor.step(Event::Spawned), Directive::Ignore);
    assert_eq!(supervisor.step(Event::Launched), Directive::Ignore);
    assert_eq!(supervisor.spawned(), 1);
}

#[test]
fn poll_pauses_while_nothing_has_happened() {
    let mut supervisor = draining(2);
    let look = Event::Poll { failure_seen: false, all_done: false };
    assert_eq!(supervisor.step(look), Directive::Pause);
    assert_eq!(supervisor.step(look), Directive::Pause);
    assert_eq!(supervisor.phase(), Phase::Draining);
    assert_eq!(supervisor.ending(), None);
}

#[test]
fn poll_finishes_with_success_when_all_are_done() {
    let mut supervisor = draining(2);
    let look = Event::Poll { failure_seen: false, all_done: true };
    assert_eq!(supervisor.step(look), Directive::Finish);
    assert_eq!(supervisor.phase(), Phase::Finished);
    assert_eq!(supervisor.ending(), Some(Ending::Success));
    assert_eq!(supervisor.ending().unwrap().exit_code(), 0);
    assert_eq!(
        supervisor.outcome(Duration::from_millis(250)),
        Some(RunOutcome { any_failed: false, elapsed: Duration::from_millis(250) })
    );
}

#[test]
fn poll_cancels_all_when_a_failure_was_seen() {
    let mut supervisor = draining(3);
    let look = Event::Poll { failure_seen: true, all_done: false };
    assert_eq!(supervisor.step(look), Directive::CancelAll);
    assert_eq!(supervisor.phase(), Phase::Finished);
    assert_eq!(supervisor.ending(), Some(Ending::ProcessFailed));
    assert_eq!(supervisor.ending().unwrap().exit_code(), 1);
    assert_eq!(
        supervisor.outcome(Duration::from_millis(7)),
        Some(RunOutcome { any_failed: true, elapsed: Duration::from_millis(7) })
    );
}

#[test]
fn a_failure_counts_before_completion() {
    let mut supervisor = draining(3);
    let look = Event::Poll { failure_seen: true, all_done: true };
    assert_eq!(supervisor.step(look), Directive::CancelAll);
    assert_eq!(supervisor.ending(), Some(Ending::ProcessFailed));
}

#[test]
fn a_finished_run_ignores_everything() {
    let mut supervisor = draining(1);
    supervisor.step(Event::Poll { failure_seen: false, all_done: true });
    let events = [
        Event::Begin { tokens: 4 },
        Event::Spawned,
        Event::SpawnFailed,
        Event::Launched,
        Event::Poll { failure_seen: true, all_done: true },
        Event::Interrupted,
    ];
    for event in events {
        assert_eq!(supervisor.step(event), Directive::Ignore);
        assert_eq!(supervisor.phase(), Phase::Finished);
        assert_eq!(supervisor.ending(), Some(Ending::Success));
        assert_eq!(supervisor.planned(), 1);
        assert_eq!(supervisor.spawned(), 1);
    }
}

#[test]
fn events_out_of_place_change_nothing() {
    let mut supervisor = Supervisor::new();
    assert_eq!(supervisor.step(Event::Spawned), Directive::Ignore);
    assert_eq!(supervisor.step(Event::SpawnFailed), Directive::Ignore);
    assert_eq!(supervisor.step(Event::Launched), Directive::Ignore);
    let look = Event::Poll { failure_seen: true, all_done: true };
    assert_eq!(supervisor.step(look), Directive::Ignore);
    assert_eq!(supervisor.phase(), Phase::Idle);

    supervisor.step(Event::Begin { tokens: 2 });
    assert_eq!(supervisor.step(Event::Begin { tokens: 9 }), Directive::Ignore);
    assert_eq!(supervisor.step(Event::Launched), Directive::Ignore);
    assert_eq!(supervisor.step(look), Directive::Ignore);
    assert_eq!(supervisor.phase(), Phase::Spawning);
    assert_eq!(supervisor.planned(), 2);
    assert_eq!(supervisor.spawned(), 0);

    supervisor.step(Event::Spawned);
    supervisor.step(Event::Spawned);
    assert_eq!(supervisor.phase(), Phase::Streaming);
    assert_eq!(supervisor.step(Event::Spawned), Directive::Ignore);
    assert_eq!(supervisor.step(Event::SpawnFailed), Directive::Ignore);
    assert_eq!(supervisor.step(look), Directive::Ignore);
    assert_eq!(supervisor.spawned(), 2);

    supervisor.step(Event::Launched);
    assert_eq!(supervisor.step(Event::Launched), Directive::Ignore);
    assert_eq!(supervisor.step(Event::Spawned), Directive::Ignore);
    assert_eq!(supervisor.phase(), Phase::Draining);
}

#[test]
fn an_interrupt_is_announced_and_changes_nothing() {
    let mut supervisor = Supervisor::new();
    assert_eq!(supervisor.step(Event::Interrupted), Directive::AnnounceInterrupt);
    assert_eq!(supervisor.phase(), Phase::Idle);
    supervisor.step(Event::Begin { tokens: 1 });
    assert_eq!(supervisor.step(Event::Interrupted), Directive::AnnounceInterrupt);
    assert_eq!(supervisor.phase(), Phase::Spawning);
    supervisor.step(Event::Spawned);
    assert_eq!(supervisor.step(Event::Interrupted), Directive::AnnounceInterrupt);
    assert_eq!(supervisor.phase(), Phase::Streaming);
    supervisor.step(Event::Launched);
    assert_eq!(supervisor.step(Event::Interrupted), Directive::AnnounceInterrupt);
    assert_eq!(supervisor.phase(), Phase::Draining);
    assert_eq!(supervisor.ending(), None);
}

#[test]
fn many_tokens_are_all_spawned() {
    let mut supervisor = Supervisor::new();
    assert_eq!(supervisor.step(Event::Begin { tokens: 1000 }), Directive::Spawn { index: 0 });
    let mut index = 1;
    while index < 1000 {
        assert_eq!(supervisor.step(Event::Spawned), Directive::Spawn { index });
        index += 1;
    }
    assert_eq!(supervisor.step(Event::Spawned), Directive::Launch { count: 1000 });
    assert_eq!(supervisor.spawned(), 1000);
}
