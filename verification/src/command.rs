//! External programs that the installer runs, described as plain values.

use vstd::prelude::*;
use vstd::string::StringExecFns;

use crate::text::{trim, trim_spec};

verus! {

broadcast use vstd::string::group_string_axioms;

/// A program to run, its arguments, and what to feed its standard input.
pub struct ExternalCommand {
    pub program: String,
    pub args: Vec<String>,
    pub stdin: Option<String>,
}

/// The mathematical value of an [`ExternalCommand`].
pub struct CommandView {
    pub program: Seq<char>,
    pub args: Seq<Seq<char>>,
    pub stdin: Option<Seq<char>>,
}

impl View for ExternalCommand {
    type V = CommandView;

    open spec fn view(&self) -> CommandView {
        CommandView {
            program: self.program@,
            args: self.args.deep_view(),
            stdin: self.stdin.deep_view(),
        }
    }
}

impl DeepView for ExternalCommand {
    type V = CommandView;

    open spec fn deep_view(&self) -> CommandView {
        self@
    }
}

/// The command that runs a shell command line inside the target root: `chroot <target> sh -c <command>`.
pub open spec fn chroot_command_spec(
    target_mount: Seq<char>,
    command: Seq<char>,
    input: Option<Seq<char>>,
) -> CommandView {
    CommandView {
        program: "chroot"@,
        args: seq![target_mount, "sh"@, "-c"@, command],
        stdin: input,
    }
}

/// Builds the `chroot` invocation for a shell command line, with optional standard input.
pub fn chroot_command(target_mount: &str, command: &str, input: Option<&str>) -> (c:
    ExternalCommand)
    ensures
        c@ == chroot_command_spec(target_mount@, command@, input.deep_view()),
{
    let stdin = match input {
        Some(data) => Some(data.to_string()),
        None => None,
    };
    let args = vec![target_mount.to_string(), "sh".to_string(), "-c".to_string(), command.to_string()];
    let c = ExternalCommand { program: "chroot".to_string(), args, stdin };
    assert(c.args.deep_view() =~= seq![target_mount@, "sh"@, "-c"@, command@]);
    c
}

/// The error reported when a command run in the target root exits unsuccessfully.
pub open spec fn chroot_failure_spec(command: Seq<char>, stderr: Seq<char>) -> Seq<char> {
    "Chroot command '"@ + command + "' failed: "@ + trim_spec(stderr)
}

/// The message for a failed command inside the target root, given its standard error text.
pub fn chroot_failure_message(command: &str, stderr: &str) -> (m: String)
    ensures
        m@ == chroot_failure_spec(command@, stderr@),
{
    let mut m = "Chroot command '".to_string();
    m.append(command);
    m.append("' failed: ");
    let t = trim(stderr);
    m.append(t.as_str());
    m
}

/// A command with no standard input.
pub open spec fn plain_command(program: Seq<char>, args: Seq<Seq<char>>) -> CommandView {
    CommandView { program, args, stdin: None }
}

impl ExternalCommand {
    /// A command that runs `program` with `args` and no standard input.
    pub fn new(program: &str, args: Vec<String>) -> (c: ExternalCommand)
        ensures
            c@ == plain_command(program@, args.deep_view()),
    {
        ExternalCommand { program: program.to_string(), args, stdin: None }
    }

    /// The same command with `data` fed to its standard input.
    pub fn with_stdin(self, data: &str) -> (c: ExternalCommand)
        ensures
            c@ == (CommandView { stdin: Some(data@), ..self@ }),
    {
        ExternalCommand { program: self.program, args: self.args, stdin: Some(data.to_string()) }
    }
}

/// A command line run inside the target root, and what its error message is prefixed with.
pub struct ChrootStep {
    /// The shell command line, as the failure message quotes it.
    pub command_line: String,
    /// The `chroot` invocation that runs it.
    pub command: ExternalCommand,
    pub error_prefix: String,
}

/// The mathematical value of a [`ChrootStep`].
pub struct ChrootStepView {
    pub command_line: Seq<char>,
    pub command: CommandView,
    pub error_prefix: Seq<char>,
}

impl DeepView for ChrootStep {
    type V = ChrootStepView;

    open spec fn deep_view(&self) -> ChrootStepView {
        ChrootStepView {
            command_line: self.command_line@,
            command: self.command@,
            error_prefix: self.error_prefix@,
        }
    }
}

/// The step that runs `command` inside `target_mount`, with optional input, whose failure is
/// reported after `prefix`.
pub open spec fn chroot_step_spec(
    target_mount: Seq<char>,
    command: Seq<char>,
    input: Option<Seq<char>>,
    prefix: Seq<char>,
) -> ChrootStepView {
    ChrootStepView {
        command_line: command,
        command: chroot_command_spec(target_mount, command, input),
        error_prefix: prefix,
    }
}

pub fn chroot_step(target_mount: &str, command: &str, input: Option<&str>, prefix: &str) -> (s:
    ChrootStep)
    ensures
        s.deep_view() == chroot_step_spec(target_mount@, command@, input.deep_view(), prefix@),
{
    ChrootStep {
        command_line: command.to_string(),
        command: chroot_command(target_mount, command, input),
        error_prefix: prefix.to_string(),
    }
}

/// Why a command failed.
#[derive(PartialEq, Eq, Structural, Clone, Copy, Debug)]
pub enum CommandFailure {
    /// The program could not be started.
    NotStarted,
    /// It ran and exited unsuccessfully.
    Unsuccessful,
}

/// The result of running a command, given how it ended (`None`: it could not be started, or was
/// not run): not starting is a failure when `start_required`, an unsuccessful exit when
/// `success_required`; otherwise the outcome is ignored.
pub open spec fn command_result_spec(start_required: bool, success_required: bool, exit: Option<bool>) -> Result<
    (),
    CommandFailure,
> {
    match exit {
        None => if start_required {
            Err(CommandFailure::NotStarted)
        } else {
            Ok(())
        },
        Some(ok) => if ok || !success_required {
            Ok(())
        } else {
            Err(CommandFailure::Unsuccessful)
        },
    }
}

/// Decides whether a command's outcome fails the step that ran it.
pub fn command_result(start_required: bool, success_required: bool, exit: Option<bool>) -> (r: Result<
    (),
    CommandFailure,
>)
    ensures
        r == command_result_spec(start_required, success_required, exit),
{
    match exit {
        None => if start_required {
            Err(CommandFailure::NotStarted)
        } else {
            Ok(())
        },
        Some(ok) => if ok || !success_required {
            Ok(())
        } else {
            Err(CommandFailure::Unsuccessful)
        },
    }
}

/// Text to append to a file; `create` says whether a missing file is created, or the append fails.
pub struct FileAppend {
    pub path: String,
    pub text: String,
    pub create: bool,
}

/// Where a run of a list of commands stands, the commands running one after another.
#[derive(PartialEq, Eq, Structural, Clone, Copy, Debug)]
pub enum ListState {
    /// The command at this index runs next.
    Running(usize),
    /// The list is done, and its step succeeded.
    Succeeded,
    /// The command at this index failed; its error is the step's, and nothing after it runs.
    Failed(usize),
}

/// The first state of a run of `len` commands.
pub open spec fn list_start_spec(len: nat) -> ListState {
    if len == 0 {
        ListState::Succeeded
    } else {
        ListState::Running(0)
    }
}

/// The state after the command at `index` ended with `succeeded`: a failure stops the list,
/// unless failures are ignored, in which case the remaining commands still run.
pub open spec fn list_advance_spec(len: nat, index: nat, succeeded: bool, ignore_failures: bool) -> ListState {
    if !succeeded && !ignore_failures {
        ListState::Failed(index as usize)
    } else if index + 1 >= len {
        ListState::Succeeded
    } else {
        ListState::Running((index + 1) as usize)
    }
}

pub fn list_start(len: usize) -> (s: ListState)
    ensures
        s == list_start_spec(len as nat),
{
    if len == 0 {
        ListState::Succeeded
    } else {
        ListState::Running(0)
    }
}

pub fn list_advance(len: usize, index: usize, succeeded: bool, ignore_failures: bool) -> (s: ListState)
    requires
        index < len,
    ensures
        s == list_advance_spec(len as nat, index as nat, succeeded, ignore_failures),
{
    if !succeeded && !ignore_failures {
        ListState::Failed(index)
    } else if index + 1 >= len {
        ListState::Succeeded
    } else {
        ListState::Running(index + 1)
    }
}

/// Where the run of commands with these results ends, from the command at `i` on.
pub open spec fn list_run_from(results: Seq<bool>, ignore_failures: bool, i: nat) -> ListState
    decreases results.len() - i,
{
    if i >= results.len() {
        ListState::Succeeded
    } else {
        match list_advance_spec(results.len(), i, results[i as int], ignore_failures) {
            ListState::Running(j) => if j > i {
                list_run_from(results, ignore_failures, j as nat)
            } else {
                ListState::Running(j)
            },
            other => other,
        }
    }
}

/// Where the run of commands with these results ends, from the start.
pub open spec fn list_run(results: Seq<bool>, ignore_failures: bool) -> ListState {
    match list_start_spec(results.len()) {
        ListState::Running(_) => list_run_from(results, ignore_failures, 0),
        other => other,
    }
}

/// The index of the first failed command at or after `i`.
pub open spec fn first_failure_from(results: Seq<bool>, i: nat) -> Option<nat>
    decreases results.len() - i,
{
    if i >= results.len() {
        None
    } else if !results[i as int] {
        Some(i)
    } else {
        first_failure_from(results, i + 1)
    }
}

proof fn lemma_list_run_from(results: Seq<bool>, ignore_failures: bool, i: nat)
    requires
        results.len() <= usize::MAX,
    ensures
        list_run_from(results, ignore_failures, i) == (if ignore_failures {
            ListState::Succeeded
        } else {
            match first_failure_from(results, i) {
                None => ListState::Succeeded,
                Some(k) => ListState::Failed(k as usize),
            }
        }),
    decreases results.len() - i,
{
    if i < results.len() {
        lemma_list_run_from(results, ignore_failures, i + 1);
    }
}

/// A list of commands run with [`list_start`] and [`list_advance`] succeeds exactly when failures
/// are ignored or every command succeeds; otherwise it fails at the first failed command, and
/// no command after it runs.
pub proof fn command_list_outcome(results: Seq<bool>, ignore_failures: bool)
    requires
        results.len() <= usize::MAX,
    ensures
        list_run(results, ignore_failures) == (if ignore_failures {
            ListState::Succeeded
        } else {
            match first_failure_from(results, 0) {
                None => ListState::Succeeded,
                Some(k) => ListState::Failed(k as usize),
            }
        }),
        !ignore_failures ==> (list_run(results, ignore_failures) == ListState::Succeeded <==> forall|
            j: int,
        | 0 <= j < results.len() ==> #[trigger] results[j]),
{
    lemma_list_run_from(results, ignore_failures, 0);
    lemma_first_failure(results, 0);
}

proof fn lemma_first_failure(results: Seq<bool>, i: nat)
    ensures
        first_failure_from(results, i) is None <==> forall|j: int| i <= j < results.len() ==> #[trigger] results[j],
        first_failure_from(results, i) matches Some(k) ==> i <= k < results.len() && !results[k as int]
            && forall|j: int| i <= j < k ==> #[trigger] results[j],
    decreases results.len() - i,
{
    if i < results.len() {
        lemma_first_failure(results, i + 1);
    }
}

} // verus!
