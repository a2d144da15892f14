//! The transcription command: stage the audio in a file, run the helper on
//! it, remove the file, report what the helper said.

use vstd::prelude::*;
use vstd::string::*;
use crate::invocation::{
    join_path, joined_path, recognize_args, recognize_command, INTERPRETER, RECOGNIZE_SCRIPT,
};
use crate::protocol::{
    outcome_view, Action, ActionView, OutputView, Reply, ReplyView, Step, StepView, Trace,
};
use crate::report::{
    describe_failure, failure, interpret, interpretation, NOT_LAUNCHED, NO_WORKING_DIR,
    UNEXPECTED_REPLY, WRITE_FAILED,
};

verus! {

/// A transcription under way. Each state names the reply that it waits for.
#[derive(Debug, PartialEq, Eq)]
pub enum Recognition {
    /// The audio is being written to `file_path`.
    Staging { file_path: String },
    /// The audio is in `file_path`; the working directory is being found out.
    Locating { file_path: String },
    /// The helper is running on `file_path`.
    Running { file_path: String },
    /// The file is being removed; `outcome` is what the command will report.
    Cleaning { outcome: Result<String, String> },
}

/// A transcription under way, with its texts as sequences of characters.
pub enum RecognitionView {
    Staging { file_path: Seq<char> },
    Locating { file_path: Seq<char> },
    Running { file_path: Seq<char> },
    Cleaning { outcome: Result<Seq<char>, Seq<char>> },
}

impl View for Recognition {
    type V = RecognitionView;

    open spec fn view(&self) -> RecognitionView {
        match *self {
            Recognition::Staging { file_path } => RecognitionView::Staging {
                file_path: file_path@,
            },
            Recognition::Locating { file_path } => RecognitionView::Locating {
                file_path: file_path@,
            },
            Recognition::Running { file_path } => RecognitionView::Running {
                file_path: file_path@,
            },
            Recognition::Cleaning { outcome } => RecognitionView::Cleaning {
                outcome: outcome_view(outcome),
            },
        }
    }
}

/// The step that removes the staged file and keeps `outcome` for the end.
pub open spec fn clean_up(
    file_path: Seq<char>,
    outcome: Result<Seq<char>, Seq<char>>,
) -> StepView<RecognitionView> {
    StepView::Continue {
        session: RecognitionView::Cleaning { outcome },
        action: ActionView::RemoveFile { path: file_path },
    }
}

/// How a transcription goes on when `reply` comes in.
///
/// A failed write ends it at once. Once the audio is staged, every way on
/// leads through the removal of the file: after the helper has run, and as
/// well where it could not be run. The removal's reply is not looked at. A
/// reply that does not answer the action asked for counts as a failure.
pub open spec fn recognition_step(session: RecognitionView, reply: ReplyView) -> StepView<
    RecognitionView,
> {
    match session {
        RecognitionView::Staging { file_path } => match reply {
            ReplyView::Written => StepView::Continue {
                session: RecognitionView::Locating { file_path },
                action: ActionView::QueryWorkingDir,
            },
            ReplyView::WriteFailed { reason } => StepView::Done {
                result: Err(failure(WRITE_FAILED@, reason)),
            },
            _ => StepView::Done { result: Err(UNEXPECTED_REPLY@) },
        },
        RecognitionView::Locating { file_path } => match reply {
            ReplyView::WorkingDir { path } => StepView::Continue {
                session: RecognitionView::Running { file_path },
                action: ActionView::Run {
                    program: INTERPRETER@,
                    args: recognize_args(joined_path(path, RECOGNIZE_SCRIPT@), file_path),
                },
            },
            ReplyView::NoWorkingDir { reason } => clean_up(
                file_path,
                Err(failure(NO_WORKING_DIR@, reason)),
            ),
            _ => clean_up(file_path, Err(UNEXPECTED_REPLY@)),
        },
        RecognitionView::Running { file_path } => match reply {
            ReplyView::Exited { output } => clean_up(file_path, interpretation(output)),
            ReplyView::NotLaunched { reason } => clean_up(
                file_path,
                Err(failure(NOT_LAUNCHED@, reason)),
            ),
            _ => clean_up(file_path, Err(UNEXPECTED_REPLY@)),
        },
        RecognitionView::Cleaning { outcome } => StepView::Done { result: outcome },
    }
}

/// What comes of `session` when `replies` are handed to it one after the
/// other. Replies that are left when the command is over are not looked at.
pub open spec fn recognition_run(session: RecognitionView, replies: Seq<ReplyView>) -> Trace
    decreases replies.len(),
{
    if replies.len() == 0 {
        Trace::waiting()
    } else {
        match recognition_step(session, replies.first()) {
            StepView::Continue { session: next, action } => recognition_run(
                next,
                replies.drop_first(),
            ).after(action),
            StepView::Done { result } => Trace::ended(result),
        }
    }
}

/// What comes of a whole transcription of `audio` staged at `file_path`,
/// from the first action on.
pub open spec fn recognition_trace(
    file_path: Seq<char>,
    audio: Seq<u8>,
    replies: Seq<ReplyView>,
) -> Trace {
    recognition_run(RecognitionView::Staging { file_path }, replies).after(
        ActionView::WriteFile { path: file_path, bytes: audio },
    )
}

impl Recognition {
    /// Starts a transcription of `audio_data`. The audio goes to the file
    /// that `audio_path` names inside `temp_dir`.
    pub fn begin(temp_dir: &str, audio_path: &str, audio_data: Vec<u8>) -> (start: (
        Recognition,
        Action,
    ))
        ensures
            start.0@ == (RecognitionView::Staging {
                file_path: joined_path(temp_dir@, audio_path@),
            }),
            start.1@ == (ActionView::WriteFile {
                path: joined_path(temp_dir@, audio_path@),
                bytes: audio_data@,
            }),
    {
        Recognition::stage(join_path(temp_dir, audio_path), audio_data)
    }

    /// Starts a transcription of `audio_data` that stages it at `file_path`.
    pub fn stage(file_path: String, audio_data: Vec<u8>) -> (start: (Recognition, Action))
        ensures
            start.0@ == (RecognitionView::Staging { file_path: file_path@ }),
            start.1@ == (ActionView::WriteFile { path: file_path@, bytes: audio_data@ }),
    {
        let path = file_path.clone();
        (Recognition::Staging { file_path }, Action::WriteFile { path, bytes: audio_data })
    }

    /// Takes the reply to the action asked for last and says how to go on.
    pub fn step(self, reply: Reply) -> (next: Step<Recognition>)
        ensures
            next@ == recognition_step(self@, reply@),
    {
        match self {
            Recognition::Staging { file_path } => match reply {
                Reply::Written => Step::Continue {
                    session: Recognition::Locating { file_path },
                    action: Action::QueryWorkingDir,
                },
                Reply::WriteFailed { reason } => Step::Done {
                    result: Err(describe_failure(WRITE_FAILED, reason.as_str())),
                },
                _ => Step::Done { result: Err(String::from_str(UNEXPECTED_REPLY)) },
            },
            Recognition::Locating { file_path } => match reply {
                Reply::WorkingDir { path } => {
                    let script = join_path(path.as_str(), RECOGNIZE_SCRIPT);
                    let action = recognize_command(script, file_path.clone());
                    Step::Continue { session: Recognition::Running { file_path }, action }
                },
                Reply::NoWorkingDir { reason } => Recognition::remove(
                    file_path,
                    Err(describe_failure(NO_WORKING_DIR, reason.as_str())),
                ),
                _ => Recognition::remove(file_path, Err(String::from_str(UNEXPECTED_REPLY))),
            },
            Recognition::Running { file_path } => match reply {
                Reply::Exited { output } => Recognition::remove(file_path, interpret(&output)),
                Reply::NotLaunched { reason } => Recognition::remove(
                    file_path,
                    Err(describe_failure(NOT_LAUNCHED, reason.as_str())),
                ),
                _ => Recognition::remove(file_path, Err(String::from_str(UNEXPECTED_REPLY))),
            },
            Recognition::Cleaning { outcome } => Step::Done { result: outcome },
        }
    }

    fn remove(file_path: String, outcome: Result<String, String>) -> (next: Step<Recognition>)
        ensures
            next@ == clean_up(file_path@, outcome_view(outcome)),
    {
        Step::Continue {
            session: Recognition::Cleaning { outcome },
            action: Action::RemoveFile { path: file_path },
        }
    }
}

/// A transcription asks for at most four actions, and it is over once four
/// replies have come in.
pub proof fn lemma_recognition_ends(file_path: Seq<char>, audio: Seq<u8>, replies: Seq<ReplyView>)
    ensures
        recognition_trace(file_path, audio, replies).actions.len() <= 4,
        replies.len() >= 4 ==> recognition_trace(file_path, audio, replies).result is Some,
{
    reveal_with_fuel(recognition_run, 5);
}

/// Staging comes first. The first action of a transcription writes exactly
/// the given audio to the given path, and it is the only write. The helper
/// is asked for only after that write was reported done, and it is pointed
/// at the file that was written.
pub proof fn lemma_staging_comes_first(
    file_path: Seq<char>,
    audio: Seq<u8>,
    replies: Seq<ReplyView>,
    i: int,
)
    requires
        0 <= i < recognition_trace(file_path, audio, replies).actions.len(),
    ensures
        recognition_trace(file_path, audio, replies).actions[0] == (ActionView::WriteFile {
            path: file_path,
            bytes: audio,
        }),
        recognition_trace(file_path, audio, replies).actions[i] is WriteFile ==> i == 0,
        recognition_trace(file_path, audio, replies).actions[i] is Run ==> i == 2,
        recognition_trace(file_path, audio, replies).actions[i] is Run ==> replies[0]
            == ReplyView::Written && replies[1] is WorkingDir,
        recognition_trace(file_path, audio, replies).actions[i] is Run ==> recognition_trace(
            file_path,
            audio,
            replies,
        ).actions[i] == (ActionView::Run {
            program: INTERPRETER@,
            args: recognize_args(
                joined_path(replies[1]->WorkingDir_path, RECOGNIZE_SCRIPT@),
                file_path,
            ),
        }),
{
    reveal_with_fuel(recognition_run, 5);
}

/// The staged file is removed. Once the write was reported done, a
/// transcription that is over has asked for the removal of the staged file,
/// as its last action and only then, whatever the replies in between.
pub proof fn lemma_staged_file_is_removed(
    file_path: Seq<char>,
    audio: Seq<u8>,
    replies: Seq<ReplyView>,
)
    requires
        replies.len() > 0,
        replies[0] == ReplyView::Written,
        recognition_trace(file_path, audio, replies).result is Some,
    ensures
        recognition_trace(file_path, audio, replies).actions.last() == (ActionView::RemoveFile {
            path: file_path,
        }),
        forall|i: int|
            0 <= i < recognition_trace(file_path, audio, replies).actions.len() - 1
                ==> !(#[trigger] recognition_trace(file_path, audio, replies).actions[i]
                is RemoveFile),
{
    reveal_with_fuel(recognition_run, 5);
}

/// A write that was not reported done ends the transcription: nothing is
/// asked for after it, no removal either.
pub proof fn lemma_failed_staging_ends(
    file_path: Seq<char>,
    audio: Seq<u8>,
    replies: Seq<ReplyView>,
)
    requires
        replies.len() > 0,
        replies[0] != ReplyView::Written,
    ensures
        recognition_trace(file_path, audio, replies).actions.len() == 1,
        recognition_trace(file_path, audio, replies).result is Some,
        recognition_trace(file_path, audio, replies).result->0 is Err,
{
    reveal_with_fuel(recognition_run, 5);
}

/// The file that `action` works on: the one it writes or removes, or the
/// one that the helper is pointed at.
pub open spec fn touched_file(action: ActionView) -> Option<Seq<char>> {
    match action {
        ActionView::WriteFile { path, bytes } => Some(path),
        ActionView::RemoveFile { path } => Some(path),
        ActionView::Run { program, args } => if args.len() > 0 {
            Some(args.last())
        } else {
            None
        },
        ActionView::QueryWorkingDir => None,
    }
}

/// A transcription touches no file but its own: what it writes, what it
/// removes and what it points the helper at is the file it was started with.
pub proof fn lemma_touches_own_file_only(
    file_path: Seq<char>,
    audio: Seq<u8>,
    replies: Seq<ReplyView>,
    i: int,
)
    requires
        0 <= i < recognition_trace(file_path, audio, replies).actions.len(),
    ensures
        touched_file(recognition_trace(file_path, audio, replies).actions[i]) is Some
            ==> touched_file(recognition_trace(file_path, audio, replies).actions[i]) == Some(
            file_path,
        ),
{
    reveal_with_fuel(recognition_run, 5);
}

/// Transcriptions keep apart. Of two transcriptions that were started with
/// different files, neither asks for an action on the file of the other,
/// whatever replies either of them gets.
pub proof fn lemma_transcriptions_keep_apart(
    file_path: Seq<char>,
    audio: Seq<u8>,
    replies: Seq<ReplyView>,
    i: int,
    other_path: Seq<char>,
    other_audio: Seq<u8>,
    other_replies: Seq<ReplyView>,
    j: int,
)
    requires
        file_path != other_path,
        0 <= i < recognition_trace(file_path, audio, replies).actions.len(),
        0 <= j < recognition_trace(other_path, other_audio, other_replies).actions.len(),
        touched_file(recognition_trace(file_path, audio, replies).actions[i]) is Some,
    ensures
        touched_file(recognition_trace(file_path, audio, replies).actions[i]) != touched_file(
            recognition_trace(other_path, other_audio, other_replies).actions[j],
        ),
{
    lemma_touches_own_file_only(file_path, audio, replies, i);
    lemma_touches_own_file_only(other_path, other_audio, other_replies, j);
}

/// The replies of a transcription in which every action works out: the
/// write, the working directory `working_dir`, the helper's `output`, and
/// `last` for the removal.
pub open spec fn smooth_replies(
    working_dir: Seq<char>,
    output: OutputView,
    last: ReplyView,
) -> Seq<ReplyView> {
    seq![
        ReplyView::Written,
        ReplyView::WorkingDir { path: working_dir },
        ReplyView::Exited { output },
        last,
    ]
}

/// The actions of a transcription in which every action works out: write
/// the audio, ask for the working directory, run the script found there on
/// the staged file, remove the file.
pub open spec fn smooth_actions(
    file_path: Seq<char>,
    audio: Seq<u8>,
    working_dir: Seq<char>,
) -> Seq<ActionView> {
    seq![
        ActionView::WriteFile { path: file_path, bytes: audio },
        ActionView::QueryWorkingDir,
        ActionView::Run {
            program: INTERPRETER@,
            args: recognize_args(joined_path(working_dir, RECOGNIZE_SCRIPT@), file_path),
        },
        ActionView::RemoveFile { path: file_path },
    ]
}

/// Where every action works out, a transcription asks for the four actions
/// in their order and reports what the helper's output means, whatever the
/// reply to the removal.
pub proof fn lemma_recognition_reports_helper(
    file_path: Seq<char>,
    audio: Seq<u8>,
    working_dir: Seq<char>,
    output: OutputView,
    last: ReplyView,
)
    ensures
        recognition_trace(file_path, audio, smooth_replies(working_dir, output, last)).actions
            == smooth_actions(file_path, audio, working_dir),
        recognition_trace(file_path, audio, smooth_replies(working_dir, output, last)).result
            == Some(interpretation(output)),
{
    reveal_with_fuel(recognition_run, 5);
    let trace = recognition_trace(file_path, audio, smooth_replies(working_dir, output, last));
    assert(trace.actions =~= smooth_actions(file_path, audio, working_dir));
}

} // verus!
