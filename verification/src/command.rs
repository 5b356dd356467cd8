//! Planned external commands, the outcomes the operating-system boundary can
//! report for them, and the verified reduction of an outcome to the
//! executor's success-or-failure result.

use vstd::prelude::*;
use vstd::string::StringExecFns;

verus! {

/// Mathematical model of a planned command: a program name and its
/// ordered argument list.
#[verifier::ext_equal]
pub ghost struct CmdModel {
    pub program: Seq<char>,
    pub args: Seq<Seq<char>>,
}

/// A planned external invocation: a program name and an ordered argument
/// vector. The plan is pure data; nothing here touches the system.
pub struct Cmd {
    pub program: String,
    pub args: Vec<String>,
}

impl View for Cmd {
    type V = CmdModel;

    open spec fn view(&self) -> CmdModel {
        CmdModel { program: self.program@, args: self.args.deep_view() }
    }
}

impl DeepView for Cmd {
    type V = CmdModel;

    open spec fn deep_view(&self) -> CmdModel {
        self.view()
    }
}

/// What a step does when one of its commands fails to launch.
#[derive(Clone, Copy, Debug, PartialEq, Eq, Structural)]
pub enum OnFailure {
    /// The first launch failure aborts the step with an error.
    Abort,
    /// Launch failures are discarded; the step goes on.
    Ignore,
}

/// A command together with the step's failure policy for it.
pub struct Invocation {
    pub cmd: Cmd,
    pub on_failure: OnFailure,
}

/// Mathematical model of an [`Invocation`].
#[verifier::ext_equal]
pub ghost struct InvocationModel {
    pub cmd: CmdModel,
    pub on_failure: OnFailure,
}

impl View for Invocation {
    type V = InvocationModel;

    open spec fn view(&self) -> InvocationModel {
        InvocationModel { cmd: self.cmd@, on_failure: self.on_failure }
    }
}

impl DeepView for Invocation {
    type V = InvocationModel;

    open spec fn deep_view(&self) -> InvocationModel {
        self.view()
    }
}

/// What the operating-system boundary reports for one invocation whose
/// output streams were discarded.
pub enum ExecOutcome {
    /// The program could not be started at all; `message` is the
    /// operating system's error text.
    LaunchFailure { message: String },
    /// The program ran to termination; `success` is whether it reported
    /// a successful exit status.
    Exited { success: bool },
}

/// What the operating-system boundary reports for one probe invocation
/// whose standard output was captured.
pub enum ProbeOutcome {
    /// The program could not be started at all.
    LaunchFailure { message: String },
    /// The program ran to termination with the given captured output.
    Completed { success: bool, output: String },
}

/// A launch failure, as the executor surfaces it: the program that could
/// not be started and the operating system's error text.
pub struct ExecutionError {
    pub program: String,
    pub message: String,
}

/// Mathematical model of an [`ExecutionError`].
#[verifier::ext_equal]
pub ghost struct ExecutionErrorModel {
    pub program: Seq<char>,
    pub message: Seq<char>,
}

impl View for ExecutionError {
    type V = ExecutionErrorModel;

    open spec fn view(&self) -> ExecutionErrorModel {
        ExecutionErrorModel { program: self.program@, message: self.message@ }
    }
}

/// A step-level failure: the step it arose in and a loggable message.
pub struct ErrorDetail {
    pub step_name: String,
    pub message: String,
}

/// Mathematical model of an [`ErrorDetail`].
#[verifier::ext_equal]
pub ghost struct ErrorDetailModel {
    pub step_name: Seq<char>,
    pub message: Seq<char>,
}

impl View for ErrorDetail {
    type V = ErrorDetailModel;

    open spec fn view(&self) -> ErrorDetailModel {
        ErrorDetailModel { step_name: self.step_name@, message: self.message@ }
    }
}

/// The operating-system command boundary. The library plans every
/// invocation and interprets every outcome; an implementation only
/// launches the planned program, waits, and reports what happened.
///
/// Implementations live outside the library (the real one spawns
/// processes with both output streams discarded, a recording one backs
/// the tests), so nothing is assumed about the outcomes they return:
/// every contract downstream holds for every possible outcome.
pub trait CommandExecutor {
    /// Launch `cmd` with output streams discarded and wait for it.
    fn run(&mut self, cmd: &Cmd) -> ExecOutcome;

    /// Launch `cmd` with standard output captured and wait for it.
    fn run_probe(&mut self, cmd: &Cmd) -> ProbeOutcome;

    /// Wait for the given number of milliseconds.
    fn pause(&mut self, millis: u64);
}

/// The loggable text for a launch failure of `program` with operating
/// system error text `os_text`.
pub open spec fn launch_failure_text(program: Seq<char>, os_text: Seq<char>) -> Seq<char> {
    "Execution error "@ + program + ": "@ + os_text
}

/// Builds the loggable launch-failure message for `program` and `os_text`.
pub fn launch_failure_message(program: &str, os_text: &str) -> (r: String)
    ensures
        r@ == launch_failure_text(program@, os_text@),
{
    let mut r = "Execution error ".to_owned();
    r.append(program);
    r.append(": ");
    r.append(os_text);
    r
}

/// Reduces an invocation outcome to the executor's result. A launch
/// failure, and only a launch failure, is an error; a program that ran
/// is success whatever its exit status reported — the non-zero-exit case
/// is deliberately not surfaced at this layer.
pub fn reduce_outcome(program: &str, outcome: ExecOutcome) -> (r: Result<(), ExecutionError>)
    ensures
        r is Err <==> outcome is LaunchFailure,
        r is Err ==> r->Err_0@ == (ExecutionErrorModel {
            program: program@,
            message: outcome->LaunchFailure_message@,
        }),
{
    match outcome {
        ExecOutcome::LaunchFailure { message } => Err(
            ExecutionError { program: program.to_owned(), message },
        ),
        ExecOutcome::Exited { success: _ } => Ok(()),
    }
}

} // verus!
