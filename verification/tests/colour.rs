use parallel::report::{Channel, Report};

const BLUE: &str = "\u{1b}[94m";
const RED: &str = "\u{1b}[31m";
const YELLOW: &str = "\u{1b}[33m";
const OFF: &str = "\u{1b}[0m";

#[test]
fn render_in_colour_paints_the_label_of_a_line() {
    colored::control::set_override(true);
    let report = Report::Line { label: "echo-0".to_string(), text: "a".to_string() };
    assert_eq!(report.render(), format!("{}echo-0{} - a", BLUE, OFF));
    assert_ne!(report.render(), report.plain());
}

#[test]
fn render_in_colour_paints_label_and_error() {
    colored::control::set_override(true);
    let report = Report::ReadError {
        label: "cat-1".to_string(),
        channel: Channel::Stdout,
        error: "boom".to_string(),
    };
    assert_eq!(
        report.render(),
        format!("{}cat-1{} Error reading stdout: {}boom{}", BLUE, OFF, RED, OFF)
    );
}

#[test]
fn render_in_colour_paints_label_status_and_command() {
    colored::control::set_override(true);
    let report = Report::ExitStatus {
        label: "exit-1".to_string(),
        status: "exit status: 1".to_string(),
        command: "exit".to_string(),
    };
    assert_eq!(
        report.render(),
        format!(
            "{}exit-1{} - Process exited with status: {}exit status: 1{} (command: {}exit{})",
            BLUE, OFF, RED, OFF, YELLOW, OFF
        )
    );
}

#[test]
fn render_in_colour_paints_label_error_and_command_of_a_failed_wait() {
    colored::control::set_override(true);
    let report = Report::WaitError {
        label: "x-0".to_string(),
        error: "gone".to_string(),
        command: "x".to_string(),
    };
    assert_eq!(
        report.render(),
        format!(
            "{}x-0{} Error waiting for process: {}gone{} (command: {}x{})",
            BLUE, OFF, RED, OFF, YELLOW, OFF
        )
    );
}

#[test]
fn render_in_colour_wraps_an_empty_part_too() {
    colored::control::set_override(true);
    let report = Report::Line { label: String::new(), text: String::new() };
    assert_eq!(report.render(), format!("{}{} - ", BLUE, OFF));
}
