use parallel::spawner::{
    command_name_of, label_for, plan_launch, plan_run, script_for, LaunchPlan, SpawnError,
};

#[test]
fn label_is_name_hyphen_index() {
    assert_eq!(label_for("echo", 0), "echo-0");
    assert_eq!(label_for("echo", 1), "echo-1");
    assert_eq!(label_for("echo", 2), "echo-2");
    assert_eq!(label_for("exit", 10), "exit-10");
    assert_eq!(label_for("make", 4096), "make-4096");
}

#[test]
fn label_uses_the_first_word_of_the_command() {
    assert_eq!(label_for("echo hello world", 3), "echo-3");
    assert_eq!(label_for("  ls -l", 0), "ls-0");
    assert_eq!(label_for("cargo\ttest", 7), "cargo-7");
}

#[test]
fn label_of_a_command_without_a_word_is_the_whole_command() {
    assert_eq!(label_for("", 0), "-0");
    assert_eq!(label_for("  ", 5), "  -5");
    assert_eq!(command_name_of(""), "");
    assert_eq!(command_name_of(" \t"), " \t");
}

#[test]
fn command_name_is_the_first_word() {
    assert_eq!(command_name_of("echo"), "echo");
    assert_eq!(command_name_of("echo -n"), "echo");
    assert_eq!(command_name_of(" sleep 1"), "sleep");
}

#[test]
fn labels_of_one_run_differ() {
    let mut seen: Vec<String> = Vec::new();
    let mut index = 0;
    while index < 300 {
        let label = label_for("job runner", index);
        assert!(!seen.contains(&label));
        seen.push(label);
        index += 1;
    }
}

#[test]
fn script_sources_the_start_up_file_and_passes_the_argument_twice() {
    assert_eq!(
        script_for("echo", "a"),
        "bash -c 'source ~/.bashrc 2> /dev/null; echo a' -- a"
    );
    assert_eq!(
        script_for("ls -l", "/tmp"),
        "bash -c 'source ~/.bashrc 2> /dev/null; ls -l /tmp' -- /tmp"
    );
    assert_eq!(script_for("", ""), "bash -c 'source ~/.bashrc 2> /dev/null;  ' -- ");
}

#[test]
fn plan_launch_runs_the_script_through_the_shell() {
    let plan = plan_launch("echo", "b", 1);
    let expected = LaunchPlan {
        label: "echo-1".to_string(),
        command: "echo".to_string(),
        argument: "b".to_string(),
        program: "bash".to_string(),
        arguments: vec![
            "-c".to_string(),
            "bash -c 'source ~/.bashrc 2> /dev/null; echo b' -- b".to_string(),
        ],
        pipe_stdout: true,
        pipe_stderr: true,
        kill_on_drop: true,
    };
    assert_eq!(plan, expected);
}

#[test]
fn plan_run_has_one_plan_for_each_token_in_order() {
    let plans = plan_run("echo", "a b c");
    assert_eq!(plans.len(), 3);
    let labels: Vec<&str> = plans.iter().map(|p| p.label.as_str()).collect();
    assert_eq!(labels, vec!["echo-0", "echo-1", "echo-2"]);
    let arguments: Vec<&str> = plans.iter().map(|p| p.argument.as_str()).collect();
    assert_eq!(arguments, vec!["a", "b", "c"]);
    for (index, plan) in plans.iter().enumerate() {
        assert_eq!(*plan, plan_launch("echo", &plan.argument, index));
        assert_eq!(plan.command, "echo");
        assert_eq!(plan.program, "bash");
        assert!(plan.pipe_stdout && plan.pipe_stderr && plan.kill_on_drop);
    }
}

#[test]
fn plan_run_counts_tokens_not_characters() {
    assert_eq!(plan_run("exit", "0 1 0").len(), 3);
    assert_eq!(plan_run("exit", "  10   20  ").len(), 2);
    assert_eq!(plan_run("exit", "one").len(), 1);
    let many = plan_run("x", "a b c d e f g h i j k l");
    assert_eq!(many.len(), 12);
    assert_eq!(many[11].label, "x-11");
    assert_eq!(many[11].argument, "l");
}

#[test]
fn plan_run_of_a_blank_line_is_empty() {
    assert!(plan_run("echo", "").is_empty());
    assert!(plan_run("echo", "   ").is_empty());
    assert!(plan_run("echo", "\t\n").is_empty());
}

#[test]
fn spawn_error_names_command_and_argument() {
    let error = SpawnError {
        command: "no-such-program --flag".to_string(),
        argument: "x".to_string(),
        cause: "No such file or directory (os error 2)".to_string(),
    };
    assert_eq!(error.context(), "Failed to execute command: no-such-program --flag with arg: x");
    assert_eq!(error.cause, "No such file or directory (os error 2)");
}
