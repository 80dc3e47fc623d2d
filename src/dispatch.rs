//! The dispatcher's rules: when a file is handed to the interpreter, with
//! what input, and how the interpreter's exit is classified and reported.
use vstd::prelude::*;

verus! {

/// Exit code by which a shell reports that a command was not found.
pub const EXIT_NOT_FOUND: i32 = 127;

/// How one dispatch attempt ended.
#[derive(Clone, Copy, Debug, PartialEq, Eq, Structural)]
pub enum DispatchStatus {
    /// The interpreter exited with code 0.
    Success,
    /// The interpreter exited with this code, neither 0 nor 127.
    NonZeroExit(i32),
    /// The interpreter exited with code 127: it was not found.
    ToolNotFound,
    /// The interpreter could not be launched at all.
    SpawnError,
    /// The file was empty; no interpreter was launched.
    SkippedEmpty,
    /// The interpreter ended without an exit code (stopped by a signal).
    Terminated,
}

/// What to do with a file's bytes.
#[derive(Debug)]
pub enum DispatchPlan {
    /// The file is empty: skip it, launch nothing.
    SkipEmpty,
    /// Launch the interpreter with these bytes as its standard input.
    Run { input: Vec<u8> },
}

/// What became of a launched (or not launched) interpreter.
#[derive(Debug)]
pub enum ProcessResult {
    /// The operating system refused to launch the interpreter.
    SpawnFailed,
    /// The interpreter ran; its exit code (none when a signal ended it) and
    /// everything it wrote.
    Finished { code: Option<i32>, stdout: Vec<u8>, stderr: Vec<u8> },
}

/// One dispatch attempt's status and the interpreter's captured output.
#[derive(Debug)]
pub struct DispatchOutcome {
    pub status: DispatchStatus,
    pub stdout: Vec<u8>,
    pub stderr: Vec<u8>,
}

/// How loudly an outcome is reported.
#[derive(Clone, Copy, Debug, PartialEq, Eq, Structural)]
pub enum Severity {
    Info,
    Warning,
    Error,
}

/// The status that an exit code stands for.
pub open spec fn status_of_exit(code: Option<i32>) -> DispatchStatus {
    match code {
        None => DispatchStatus::Terminated,
        Some(c) => if c == 0 {
            DispatchStatus::Success
        } else if c == EXIT_NOT_FOUND {
            DispatchStatus::ToolNotFound
        } else {
            DispatchStatus::NonZeroExit(c)
        },
    }
}

/// The status that a process result stands for.
pub open spec fn status_of_result(res: ProcessResult) -> DispatchStatus {
    match res {
        ProcessResult::SpawnFailed => DispatchStatus::SpawnError,
        ProcessResult::Finished { code, .. } => status_of_exit(code),
    }
}

/// Statuses that count as a failed dispatch.
pub open spec fn is_failure_spec(status: DispatchStatus) -> bool {
    match status {
        DispatchStatus::Success | DispatchStatus::SkippedEmpty => false,
        _ => true,
    }
}

/// Success is reported as information, a skipped empty file as a warning,
/// every failure as an error.
pub open spec fn severity_spec(status: DispatchStatus) -> Severity {
    match status {
        DispatchStatus::Success => Severity::Info,
        DispatchStatus::SkippedEmpty => Severity::Warning,
        _ => Severity::Error,
    }
}

/// Decides on a file's bytes, read once: an empty file is skipped, any
/// other is handed to the interpreter exactly as read.
pub fn plan_dispatch(contents: Vec<u8>) -> (r: DispatchPlan)
    ensures
        r is SkipEmpty <==> contents@.len() == 0,
        r matches DispatchPlan::Run { input } ==> input@ == contents@,
{
    if contents.len() == 0 {
        DispatchPlan::SkipEmpty
    } else {
        DispatchPlan::Run { input: contents }
    }
}

/// Classifies the interpreter's exit code.
pub fn classify_exit(code: Option<i32>) -> (r: DispatchStatus)
    ensures
        r == status_of_exit(code),
{
    match code {
        None => DispatchStatus::Terminated,
        Some(c) => if c == 0 {
            DispatchStatus::Success
        } else if c == EXIT_NOT_FOUND {
            DispatchStatus::ToolNotFound
        } else {
            DispatchStatus::NonZeroExit(c)
        },
    }
}

/// The outcome of a dispatch that launched, or tried to launch, the
/// interpreter: its classified status and its output, kept whole.
pub fn outcome_of(res: ProcessResult) -> (r: DispatchOutcome)
    ensures
        r.status == status_of_result(res),
        res matches ProcessResult::Finished { stdout, stderr, .. } ==> r.stdout@ == stdout@
            && r.stderr@ == stderr@,
        res is SpawnFailed ==> r.stdout@.len() == 0 && r.stderr@.len() == 0,
{
    match res {
        ProcessResult::SpawnFailed => DispatchOutcome {
            status: DispatchStatus::SpawnError,
            stdout: Vec::new(),
            stderr: Vec::new(),
        },
        ProcessResult::Finished { code, stdout, stderr } => DispatchOutcome {
            status: classify_exit(code),
            stdout,
            stderr,
        },
    }
}

/// The outcome of a dispatch that skipped an empty file.
pub fn skipped_outcome() -> (r: DispatchOutcome)
    ensures
        r.status == DispatchStatus::SkippedEmpty,
        r.stdout@.len() == 0,
        r.stderr@.len() == 0,
{
    DispatchOutcome { status: DispatchStatus::SkippedEmpty, stdout: Vec::new(), stderr: Vec::new() }
}

impl DispatchStatus {
    /// Whether this status is a failed dispatch.
    pub fn is_failure(&self) -> (r: bool)
        ensures
            r == is_failure_spec(*self),
    {
        match self {
            DispatchStatus::Success | DispatchStatus::SkippedEmpty => false,
            _ => true,
        }
    }

    /// How loudly this status is reported.
    pub fn severity(&self) -> (r: Severity)
        ensures
            r == severity_spec(*self),
    {
        match self {
            DispatchStatus::Success => Severity::Info,
            DispatchStatus::SkippedEmpty => Severity::Warning,
            _ => Severity::Error,
        }
    }
}

/// An exit code classifies as "not found" exactly when it is 127; every
/// other non-zero code classifies as a non-zero exit carrying that code.
pub proof fn lemma_exit_classification(code: i32)
    ensures
        (status_of_exit(Some(code)) == DispatchStatus::ToolNotFound) <==> code == EXIT_NOT_FOUND,
        code != 0 && code != EXIT_NOT_FOUND ==> status_of_exit(Some(code))
            == DispatchStatus::NonZeroExit(code),
        code != 0 ==> is_failure_spec(status_of_exit(Some(code))),
{
}

} // verus!
