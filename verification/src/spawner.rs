//! The process spawner's plan: what is launched for one argument, and under
//! which label its output appears.

use crate::args::{expand, first_token, is_word, lemma_word_is_its_own_token, tokens};
use crate::text::{decimal, lemma_decimal_injective, push_decimal};
use vstd::prelude::*;
use vstd::string::*;

verus! {

/// The shell through which every command is launched.
pub open spec fn shell_program() -> Seq<char> {
    "bash"@
}

/// The flag that makes the shell take its script from the next argument.
pub open spec fn shell_flag() -> Seq<char> {
    "-c"@
}

/// The script handed to the shell for one argument: an inner shell that
/// reads the user's start-up file, ignoring what that prints as errors, and
/// then runs the command with the argument behind it. The argument is also
/// passed to the inner shell as a positional parameter.
pub open spec fn script_text(command: Seq<char>, argument: Seq<char>) -> Seq<char> {
    "bash -c 'source ~/.bashrc 2> /dev/null; "@ + command + " "@ + argument + "' -- "@ + argument
}

/// The name under which a command appears in labels: its first token, or all
/// of it where it has none.
pub open spec fn command_name(command: Seq<char>) -> Seq<char> {
    if tokens(command).len() > 0 {
        tokens(command)[0]
    } else {
        command
    }
}

/// The label of the process for the argument at position `index`: the
/// command's name, a hyphen, and the position in decimal.
pub open spec fn label_text(command: Seq<char>, index: nat) -> Seq<char> {
    command_name(command) + "-"@ + decimal(index)
}

/// The context given to the operator when a process cannot be created.
pub open spec fn spawn_failure_text(command: Seq<char>, argument: Seq<char>) -> Seq<char> {
    "Failed to execute command: "@ + command + " with arg: "@ + argument
}

/// A command without white space is its own name.
pub proof fn lemma_name_of_single_word(command: Seq<char>)
    requires
        is_word(command),
    ensures
        command_name(command) == command,
{
    lemma_word_is_its_own_token(command);
}

/// Within one run no two positions share a label.
pub proof fn lemma_labels_differ(command: Seq<char>, i: nat, j: nat)
    requires
        i != j,
    ensures
        label_text(command, i) != label_text(command, j),
{
    let stem = command_name(command) + "-"@;
    if label_text(command, i) == label_text(command, j) {
        assert(decimal(i) == (stem + decimal(i)).skip(stem.len() as int));
        assert(decimal(j) == (stem + decimal(j)).skip(stem.len() as int));
        lemma_decimal_injective(i, j);
    }
}

/// The name under which a command appears in labels.
pub fn command_name_of(command: &str) -> (name: String)
    ensures
        name@ == command_name(command@),
{
    match first_token(command) {
        Some(token) => token,
        None => String::from_str(command),
    }
}

/// The label of the process for the argument at position `index`.
pub fn label_for(command: &str, index: usize) -> (label: String)
    ensures
        label@ == label_text(command@, index as nat),
{
    let mut label = command_name_of(command);
    label.append("-");
    push_decimal(&mut label, index);
    label
}

/// The script handed to the shell for one argument.
pub fn script_for(command: &str, argument: &str) -> (script: String)
    ensures
        script@ == script_text(command@, argument@),
{
    let mut script = String::from_str("bash -c 'source ~/.bashrc 2> /dev/null; ");
    script.append(command);
    script.append(" ");
    script.append(argument);
    script.append("' -- ");
    script.append(argument);
    script
}

/// How to launch the process for one argument.
#[derive(Clone, Debug, PartialEq, Eq)]
pub struct LaunchPlan {
    /// The label in front of every line of the process.
    pub label: String,
    /// The command as the operator gave it, for diagnostics.
    pub command: String,
    /// The argument that the process is for.
    pub argument: String,
    /// The program to execute.
    pub program: String,
    /// The arguments of the program.
    pub arguments: Vec<String>,
    /// Whether the standard output of the process is read through a pipe of
    /// its own.
    pub pipe_stdout: bool,
    /// Whether the standard error of the process is read through a pipe of
    /// its own.
    pub pipe_stderr: bool,
    /// Whether the process is killed when its handle is dropped before the
    /// process was waited for.
    pub kill_on_drop: bool,
}

/// A launch plan as plain values.
pub struct LaunchPlanView {
    pub label: Seq<char>,
    pub command: Seq<char>,
    pub argument: Seq<char>,
    pub program: Seq<char>,
    pub arguments: Seq<Seq<char>>,
    pub pipe_stdout: bool,
    pub pipe_stderr: bool,
    pub kill_on_drop: bool,
}

impl View for LaunchPlan {
    type V = LaunchPlanView;

    open spec fn view(&self) -> LaunchPlanView {
        LaunchPlanView {
            label: self.label@,
            command: self.command@,
            argument: self.argument@,
            program: self.program@,
            arguments: self.arguments.deep_view(),
            pipe_stdout: self.pipe_stdout,
            pipe_stderr: self.pipe_stderr,
            kill_on_drop: self.kill_on_drop,
        }
    }
}

impl DeepView for LaunchPlan {
    type V = LaunchPlanView;

    open spec fn deep_view(&self) -> LaunchPlanView {
        self@
    }
}

/// The plan for the argument at position `index`: the shell, told to run
/// the script for the argument, under the label of the position. Both output
/// streams are piped, each by itself, and a process that is dropped without
/// having been waited for is killed, so that none outlives the run.
pub open spec fn plan_of(command: Seq<char>, argument: Seq<char>, index: nat) -> LaunchPlanView {
    LaunchPlanView {
        label: label_text(command, index),
        command,
        argument,
        program: shell_program(),
        arguments: seq![shell_flag(), script_text(command, argument)],
        pipe_stdout: true,
        pipe_stderr: true,
        kill_on_drop: true,
    }
}

/// The plans of a run: one for each argument, in the order of the arguments.
pub open spec fn plans_of(command: Seq<char>, arguments: Seq<Seq<char>>) -> Seq<LaunchPlanView> {
    Seq::new(arguments.len(), |i: int| plan_of(command, arguments[i], i as nat))
}

/// Plans the launch of the process for the argument at position `index`.
pub fn plan_launch(command: &str, argument: &str, index: usize) -> (plan: LaunchPlan)
    ensures
        plan@ == plan_of(command@, argument@, index as nat),
{
    let mut arguments: Vec<String> = Vec::new();
    arguments.push(String::from_str("-c"));
    arguments.push(script_for(command, argument));
    let plan = LaunchPlan {
        label: label_for(command, index),
        command: String::from_str(command),
        argument: String::from_str(argument),
        program: String::from_str("bash"),
        arguments,
        pipe_stdout: true,
        pipe_stderr: true,
        kill_on_drop: true,
    };
    assert(plan@.arguments == seq![shell_flag(), script_text(command@, argument@)]);
    plan
}

/// Plans a whole run: one launch for each token of the argument line, in
/// the order of the tokens, each under the label of its position.
pub fn plan_run(command: &str, argument_line: &str) -> (plans: Vec<LaunchPlan>)
    ensures
        plans.deep_view() == plans_of(command@, tokens(argument_line@)),
{
    let arguments = expand(argument_line);
    let mut plans: Vec<LaunchPlan> = Vec::new();
    let mut index: usize = 0;
    while index < arguments.len()
        invariant
            index <= arguments.len(),
            arguments.deep_view() == tokens(argument_line@),
            plans.len() == index,
            forall|i: int|
                0 <= i < index ==> (#[trigger] plans[i])@ == plan_of(
                    command@,
                    tokens(argument_line@)[i],
                    i as nat,
                ),
        decreases arguments.len() - index,
    {
        assert(arguments[index as int]@ == arguments.deep_view()[index as int]);
        let plan = plan_launch(command, arguments[index].as_str(), index);
        plans.push(plan);
        index += 1;
    }
    assert(plans.deep_view() =~= plans_of(command@, tokens(argument_line@)));
    plans
}

/// Why a process could not be created.
#[derive(Clone, Debug, PartialEq, Eq)]
pub struct SpawnError {
    /// The command that was to run.
    pub command: String,
    /// The argument that the process was for.
    pub argument: String,
    /// What the operating system said.
    pub cause: String,
}

impl SpawnError {
    /// The context of the failure: the command and the argument that could
    /// not be launched.
    pub fn context(&self) -> (text: String)
        ensures
            text@ == spawn_failure_text(self.command@, self.argument@),
    {
        let mut text = String::from_str("Failed to execute command: ");
        text.append(self.command.as_str());
        text.append(" with arg: ");
        text.append(self.argument.as_str());
        text
    }
}

} // verus!
