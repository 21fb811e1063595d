use parallel::report::{Channel, Emission, Report};
use parallel::streamer::{Drain, ReadEvent};

fn line_of(label: &str, channel: Channel, text: &str) -> Emission {
    Emission {
        target: channel,
        report: Report::Line { label: label.to_string(), text: text.to_string() },
    }
}

#[test]
fn new_drain_is_open() {
    let drain = Drain::new("echo-0", Channel::Stdout);
    assert!(drain.is_open());
    assert_eq!(drain.channel(), Channel::Stdout);
    assert_eq!(drain.label(), "echo-0");
}

#[test]
fn stdout_line_goes_to_stdout_under_the_label() {
    let mut drain = Drain::new("echo-0", Channel::Stdout);
    let emitted = drain.accept(ReadEvent::Line("a".to_string()));
    assert_eq!(emitted, Some(line_of("echo-0", Channel::Stdout, "a")));
    assert!(drain.is_open());
}

#[test]
fn stderr_line_goes_to_stderr_under_the_label() {
    let mut drain = Drain::new("make-3", Channel::Stderr);
    let emitted = drain.accept(ReadEvent::Line("warning: unused".to_string()));
    assert_eq!(emitted, Some(line_of("make-3", Channel::Stderr, "warning: unused")));
    assert!(drain.is_open());
}

#[test]
fn lines_come_out_in_the_order_they_went_in() {
    let mut drain = Drain::new("seq-0", Channel::Stdout);
    let mut texts: Vec<String> = Vec::new();
    for text in ["1", "2", "", "2", "10", "3"] {
        if let Some(emission) = drain.accept(ReadEvent::Line(text.to_string())) {
            assert_eq!(emission.target, Channel::Stdout);
            texts.push(emission.report.plain());
        }
    }
    assert_eq!(
        texts,
        vec!["seq-0 - 1", "seq-0 - 2", "seq-0 - ", "seq-0 - 2", "seq-0 - 10", "seq-0 - 3"]
    );
}

#[test]
fn end_closes_the_drain_in_silence() {
    let mut drain = Drain::new("echo-0", Channel::Stdout);
    assert_eq!(drain.accept(ReadEvent::End), None);
    assert!(!drain.is_open());
}

#[test]
fn failed_read_is_reported_once_on_stderr_and_closes_the_drain() {
    let mut drain = Drain::new("cat-1", Channel::Stdout);
    let emitted = drain.accept(ReadEvent::Failed("broken pipe".to_string()));
    let expected = Emission {
        target: Channel::Stderr,
        report: Report::ReadError {
            label: "cat-1".to_string(),
            channel: Channel::Stdout,
            error: "broken pipe".to_string(),
        },
    };
    assert_eq!(emitted, Some(expected));
    assert!(!drain.is_open());
    assert_eq!(drain.accept(ReadEvent::Failed("broken pipe".to_string())), None);
}

#[test]
fn failed_read_of_stderr_names_stderr() {
    let mut drain = Drain::new("cat-1", Channel::Stderr);
    let emitted = drain.accept(ReadEvent::Failed("bad".to_string())).unwrap();
    assert_eq!(emitted.target, Channel::Stderr);
    assert_eq!(emitted.report.plain(), "cat-1 Error reading stderr: bad");
}

#[test]
fn closed_drain_ignores_everything() {
    let mut drain = Drain::new("echo-0", Channel::Stdout);
    drain.accept(ReadEvent::End);
    assert_eq!(drain.accept(ReadEvent::Line("late".to_string())), None);
    assert_eq!(drain.accept(ReadEvent::Failed("late".to_string())), None);
    assert_eq!(drain.accept(ReadEvent::End), None);
    assert!(!drain.is_open());
    assert_eq!(drain.label(), "echo-0");
    assert_eq!(drain.channel(), Channel::Stdout);
}

#[test]
fn lines_before_a_failure_are_kept_and_those_after_are_dropped() {
    let mut drain = Drain::new("p-0", Channel::Stdout);
    let events = vec![
        ReadEvent::Line("one".to_string()),
        ReadEvent::Line("two".to_string()),
        ReadEvent::Failed("cut".to_string()),
        ReadEvent::Line("three".to_string()),
        ReadEvent::End,
    ];
    let mut out: Vec<(Channel, String)> = Vec::new();
    for event in events {
        if let Some(emission) = drain.accept(event) {
            out.push((emission.target, emission.report.plain()));
        }
    }
    assert_eq!(
        out,
        vec![
            (Channel::Stdout, "p-0 - one".to_string()),
            (Channel::Stdout, "p-0 - two".to_string()),
            (Channel::Stderr, "p-0 Error reading stdout: cut".to_string()),
        ]
    );
}

#[test]
fn the_two_drains_of_a_process_do_not_affect_each_other() {
    let mut out = Drain::new("p-0", Channel::Stdout);
    let mut err = Drain::new("p-0", Channel::Stderr);
    assert_eq!(err.accept(ReadEvent::Failed("x".to_string())).unwrap().target, Channel::Stderr);
    assert!(!err.is_open());
    assert!(out.is_open());
    assert_eq!(
        out.accept(ReadEvent::Line("still here".to_string())),
        Some(line_of("p-0", Channel::Stdout, "still here"))
    );
}
