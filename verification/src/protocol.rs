//! What a session and its caller say to each other: the actions that a
//! session asks for, and the replies that report what came of them.

use vstd::prelude::*;

verus! {

/// What became of a helper process that ran to its end.
#[derive(Debug, PartialEq, Eq)]
pub struct Output {
    /// Whether the process reported success by its exit status.
    pub success: bool,
    /// What it wrote to standard output.
    pub stdout: Vec<u8>,
    /// What it wrote to standard error.
    pub stderr: Vec<u8>,
}

/// An [`Output`] with its bytes as sequences.
pub struct OutputView {
    pub success: bool,
    pub stdout: Seq<u8>,
    pub stderr: Seq<u8>,
}

impl View for Output {
    type V = OutputView;

    open spec fn view(&self) -> OutputView {
        OutputView { success: self.success, stdout: self.stdout@, stderr: self.stderr@ }
    }
}

/// One thing that a session asks its caller to do.
#[derive(Debug, PartialEq, Eq)]
pub enum Action {
    /// Write `bytes` to the file at `path`, replacing what is there.
    WriteFile { path: String, bytes: Vec<u8> },
    /// Find out the directory that the process works in.
    QueryWorkingDir,
    /// Run `program` with `args` and wait until it ends.
    Run { program: String, args: Vec<String> },
    /// Remove the file at `path`; whether that worked is of no interest.
    RemoveFile { path: String },
}

/// An [`Action`] with its texts and bytes as sequences.
pub enum ActionView {
    WriteFile { path: Seq<char>, bytes: Seq<u8> },
    QueryWorkingDir,
    Run { program: Seq<char>, args: Seq<Seq<char>> },
    RemoveFile { path: Seq<char> },
}

impl View for Action {
    type V = ActionView;

    open spec fn view(&self) -> ActionView {
        match *self {
            Action::WriteFile { path, bytes } => ActionView::WriteFile {
                path: path@,
                bytes: bytes@,
            },
            Action::QueryWorkingDir => ActionView::QueryWorkingDir,
            Action::Run { program, args } => ActionView::Run {
                program: program@,
                args: args.deep_view(),
            },
            Action::RemoveFile { path } => ActionView::RemoveFile { path: path@ },
        }
    }
}

/// What came of the action that a session asked for last.
#[derive(Debug, PartialEq, Eq)]
pub enum Reply {
    /// The file was written.
    Written,
    /// The file could not be written.
    WriteFailed { reason: String },
    /// The process works in the directory `path`.
    WorkingDir { path: String },
    /// The working directory could not be found out.
    NoWorkingDir { reason: String },
    /// The program ran and ended.
    Exited { output: Output },
    /// The program could not be started.
    NotLaunched { reason: String },
    /// The removal was attempted.
    Removed,
}

/// A [`Reply`] with its texts and bytes as sequences.
pub enum ReplyView {
    Written,
    WriteFailed { reason: Seq<char> },
    WorkingDir { path: Seq<char> },
    NoWorkingDir { reason: Seq<char> },
    Exited { output: OutputView },
    NotLaunched { reason: Seq<char> },
    Removed,
}

impl View for Reply {
    type V = ReplyView;

    open spec fn view(&self) -> ReplyView {
        match *self {
            Reply::Written => ReplyView::Written,
            Reply::WriteFailed { reason } => ReplyView::WriteFailed { reason: reason@ },
            Reply::WorkingDir { path } => ReplyView::WorkingDir { path: path@ },
            Reply::NoWorkingDir { reason } => ReplyView::NoWorkingDir { reason: reason@ },
            Reply::Exited { output } => ReplyView::Exited { output: output@ },
            Reply::NotLaunched { reason } => ReplyView::NotLaunched { reason: reason@ },
            Reply::Removed => ReplyView::Removed,
        }
    }
}

/// A command's result as its caller sees it: the text, or the message of
/// what went wrong.
pub open spec fn outcome_view(outcome: Result<String, String>) -> Result<Seq<char>, Seq<char>> {
    match outcome {
        Ok(text) => Ok(text@),
        Err(message) => Err(message@),
    }
}

/// A session's answer to a reply.
#[derive(Debug, PartialEq, Eq)]
pub enum Step<S> {
    /// The caller performs `action` and hands its reply to `session`.
    Continue { session: S, action: Action },
    /// The command is over.
    Done { result: Result<String, String> },
}

/// A [`Step`] with the session, the action and the result by their views.
pub enum StepView<V> {
    Continue { session: V, action: ActionView },
    Done { result: Result<Seq<char>, Seq<char>> },
}

impl<S: View> View for Step<S> {
    type V = StepView<S::V>;

    open spec fn view(&self) -> StepView<S::V> {
        match *self {
            Step::Continue { session, action } => StepView::Continue {
                session: session@,
                action: action@,
            },
            Step::Done { result } => StepView::Done { result: outcome_view(result) },
        }
    }
}

/// What a caller sees of a command while it feeds it replies: the actions
/// asked for, in order, and the result once the command is over.
pub struct Trace {
    pub actions: Seq<ActionView>,
    pub result: Option<Result<Seq<char>, Seq<char>>>,
}

impl Trace {
    /// The trace that begins with `action` and goes on as `self`.
    pub open spec fn after(self, action: ActionView) -> Trace {
        Trace { actions: seq![action] + self.actions, result: self.result }
    }

    /// The trace of a command that ended with `result` and asked for nothing.
    pub open spec fn ended(result: Result<Seq<char>, Seq<char>>) -> Trace {
        Trace { actions: Seq::empty(), result: Some(result) }
    }

    /// The trace of a command that waits for a reply.
    pub open spec fn waiting() -> Trace {
        Trace { actions: Seq::empty(), result: None }
    }
}

} // verus!
