//! The polishing command: run the helper on the text, report what it said.

use vstd::prelude::*;
use vstd::string::*;
use crate::invocation::{
    join_path, joined_path, language_view, polish_args, polish_command, INTERPRETER,
    POLISH_SCRIPT,
};
use crate::protocol::{Action, ActionView, OutputView, Reply, ReplyView, Step, StepView, Trace};
use crate::report::{
    describe_failure, failure, interpret, interpretation, NOT_LAUNCHED, NO_WORKING_DIR,
    UNEXPECTED_REPLY,
};

verus! {

/// A polishing under way. Each state names the reply that it waits for.
#[derive(Debug, PartialEq, Eq)]
pub enum Polishing {
    /// The working directory is being found out; `text` and `language` wait
    /// to be handed to the helper.
    Locating { text: String, language: Option<String> },
    /// The helper is running.
    Running,
}

/// A polishing under way, with its texts as sequences of characters.
pub enum PolishingView {
    Locating { text: Seq<char>, language: Option<Seq<char>> },
    Running,
}

impl View for Polishing {
    type V = PolishingView;

    open spec fn view(&self) -> PolishingView {
        match *self {
            Polishing::Locating { text, language } => PolishingView::Locating {
                text: text@,
                language: language_view(language),
            },
            Polishing::Running => PolishingView::Running,
        }
    }
}

/// How a polishing goes on when `reply` comes in.
///
/// The helper gets the text as it is, and the language tag only where one
/// was given. A reply that does not answer the action asked for counts as a
/// failure.
pub open spec fn polishing_step(session: PolishingView, reply: ReplyView) -> StepView<
    PolishingView,
> {
    match session {
        PolishingView::Locating { text, language } => match reply {
            ReplyView::WorkingDir { path } => StepView::Continue {
                session: PolishingView::Running,
                action: ActionView::Run {
                    program: INTERPRETER@,
                    args: polish_args(joined_path(path, POLISH_SCRIPT@), text, language),
                },
            },
            ReplyView::NoWorkingDir { reason } => StepView::Done {
                result: Err(failure(NO_WORKING_DIR@, reason)),
            },
            _ => StepView::Done { result: Err(UNEXPECTED_REPLY@) },
        },
        PolishingView::Running => match reply {
            ReplyView::Exited { output } => StepView::Done { result: interpretation(output) },
            ReplyView::NotLaunched { reason } => StepView::Done {
                result: Err(failure(NOT_LAUNCHED@, reason)),
            },
            _ => StepView::Done { result: Err(UNEXPECTED_REPLY@) },
        },
    }
}

/// What comes of `session` when `replies` are handed to it one after the
/// other. Replies that are left when the command is over are not looked at.
pub open spec fn polishing_run(session: PolishingView, replies: Seq<ReplyView>) -> Trace
    decreases replies.len(),
{
    if replies.len() == 0 {
        Trace::waiting()
    } else {
        match polishing_step(session, replies.first()) {
            StepView::Continue { session: next, action } => polishing_run(
                next,
                replies.drop_first(),
            ).after(action),
            StepView::Done { result } => Trace::ended(result),
        }
    }
}

/// What comes of a whole polishing of `text`, from the first action on.
pub open spec fn polishing_trace(
    text: Seq<char>,
    language: Option<Seq<char>>,
    replies: Seq<ReplyView>,
) -> Trace {
    polishing_run(PolishingView::Locating { text, language }, replies).after(
        ActionView::QueryWorkingDir,
    )
}

impl Polishing {
    /// Starts a polishing of `text`, in `language` if one is given.
    pub fn begin(text: String, language: Option<String>) -> (start: (Polishing, Action))
        ensures
            start.0@ == (PolishingView::Locating {
                text: text@,
                language: language_view(language),
            }),
            start.1@ == ActionView::QueryWorkingDir,
    {
        (Polishing::Locating { text, language }, Action::QueryWorkingDir)
    }

    /// Takes the reply to the action asked for last and says how to go on.
    pub fn step(self, reply: Reply) -> (next: Step<Polishing>)
        ensures
            next@ == polishing_step(self@, reply@),
    {
        match self {
            Polishing::Locating { text, language } => match reply {
                Reply::WorkingDir { path } => {
                    let script = join_path(path.as_str(), POLISH_SCRIPT);
                    Step::Continue {
                        session: Polishing::Running,
                        action: polish_command(script, text, language),
                    }
                },
                Reply::NoWorkingDir { reason } => Step::Done {
                    result: Err(describe_failure(NO_WORKING_DIR, reason.as_str())),
                },
                _ => Step::Done { result: Err(String::from_str(UNEXPECTED_REPLY)) },
            },
            Polishing::Running => match reply {
                Reply::Exited { output } => Step::Done { result: interpret(&output) },
                Reply::NotLaunched { reason } => Step::Done {
                    result: Err(describe_failure(NOT_LAUNCHED, reason.as_str())),
                },
                _ => Step::Done { result: Err(String::from_str(UNEXPECTED_REPLY)) },
            },
        }
    }
}

/// A polishing asks for at most two actions, and it is over once two
/// replies have come in.
pub proof fn lemma_polishing_ends(
    text: Seq<char>,
    language: Option<Seq<char>>,
    replies: Seq<ReplyView>,
)
    ensures
        polishing_trace(text, language, replies).actions.len() <= 2,
        replies.len() >= 2 ==> polishing_trace(text, language, replies).result is Some,
{
    reveal_with_fuel(polishing_run, 3);
}

/// The helper gets what the caller gave. Wherever a polishing asks for the
/// helper, the arguments after the script are the text alone where no
/// language was given, and the text followed by the language where one was.
pub proof fn lemma_polishing_arguments(
    text: Seq<char>,
    language: Option<Seq<char>>,
    replies: Seq<ReplyView>,
    i: int,
)
    requires
        0 <= i < polishing_trace(text, language, replies).actions.len(),
        polishing_trace(text, language, replies).actions[i] is Run,
    ensures
        replies[0] is WorkingDir,
        polishing_trace(text, language, replies).actions[i] == (ActionView::Run {
            program: INTERPRETER@,
            args: polish_args(
                joined_path(replies[0]->WorkingDir_path, POLISH_SCRIPT@),
                text,
                language,
            ),
        }),
        language is None ==> polishing_trace(text, language, replies).actions[i]->Run_args.skip(1)
            == seq![text],
        language is Some ==> polishing_trace(text, language, replies).actions[i]->Run_args.skip(1)
            == seq![text, language->0],
{
    reveal_with_fuel(polishing_run, 3);
    let args = polishing_trace(text, language, replies).actions[i]->Run_args;
    if language is Some {
        assert(args.skip(1) =~= seq![text, language->0]);
    } else {
        assert(args.skip(1) =~= seq![text]);
    }
}

/// Where the helper runs, a polishing asks for the working directory and
/// for the helper, and reports what the helper's output means.
pub proof fn lemma_polishing_reports_helper(
    text: Seq<char>,
    language: Option<Seq<char>>,
    working_dir: Seq<char>,
    output: OutputView,
    replies: Seq<ReplyView>,
)
    requires
        replies.len() >= 2,
        replies[0] == (ReplyView::WorkingDir { path: working_dir }),
        replies[1] == (ReplyView::Exited { output }),
    ensures
        polishing_trace(text, language, replies).actions.len() == 2,
        polishing_trace(text, language, replies).actions[0] == ActionView::QueryWorkingDir,
        polishing_trace(text, language, replies).actions[1] == (ActionView::Run {
            program: INTERPRETER@,
            args: polish_args(joined_path(working_dir, POLISH_SCRIPT@), text, language),
        }),
        polishing_trace(text, language, replies).result == Some(interpretation(output)),
{
    reveal_with_fuel(polishing_run, 3);
}

} // verus!
