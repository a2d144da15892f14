//! The command lines of the helper scripts.

use vstd::prelude::*;
use vstd::string::*;
use crate::protocol::{Action, ActionView};

verus! {

/// The interpreter that runs the helper scripts.
pub const INTERPRETER: &'static str = "python";

/// The script that transcribes an audio file.
pub const RECOGNIZE_SCRIPT: &'static str = "whisper_asr.py";

/// The script that polishes a text.
pub const POLISH_SCRIPT: &'static str = "text_polish.py";

/// The text of the path that `name` stands for when it is taken relative to
/// the directory `base`, as the platform that the crate is built for joins
/// paths.
pub uninterp spec fn joined_path(base: Seq<char>, name: Seq<char>) -> Seq<char>;

/// Calls `std::path::Path::join` on `base` and `name`. Trusted: the result
/// depends on the two texts alone; nothing is claimed of what it holds.
#[verifier::external_body]
pub(crate) fn join_path(base: &str, name: &str) -> (path: String)
    ensures
        path@ == joined_path(base@, name@),
{
    std::path::Path::new(base).join(name).to_string_lossy().into_owned()
}

/// The arguments of a transcription: the script, then the audio file.
pub open spec fn recognize_args(script: Seq<char>, file: Seq<char>) -> Seq<Seq<char>> {
    seq![script, file]
}

/// The arguments of a polishing: the script, then the text, then the
/// language if one was given, and nothing after it.
pub open spec fn polish_args(
    script: Seq<char>,
    text: Seq<char>,
    language: Option<Seq<char>>,
) -> Seq<Seq<char>> {
    match language {
        Some(tag) => seq![script, text, tag],
        None => seq![script, text],
    }
}

/// The tag that `language` holds, as text.
pub open spec fn language_view(language: Option<String>) -> Option<Seq<char>> {
    match language {
        Some(tag) => Some(tag@),
        None => None,
    }
}

/// Asks for the interpreter to run `script` on the audio file at `file`.
pub fn recognize_command(script: String, file: String) -> (action: Action)
    ensures
        action@ == (ActionView::Run {
            program: INTERPRETER@,
            args: recognize_args(script@, file@),
        }),
{
    let mut args: Vec<String> = Vec::new();
    args.push(script);
    args.push(file);
    let action = Action::Run { program: String::from_str(INTERPRETER), args };
    assert(action@->Run_args =~= recognize_args(script@, file@));
    action
}

/// Asks for the interpreter to run `script` on `text`, with the language
/// tag appended where there is one.
pub fn polish_command(script: String, text: String, language: Option<String>) -> (action: Action)
    ensures
        action@ == (ActionView::Run {
            program: INTERPRETER@,
            args: polish_args(script@, text@, language_view(language)),
        }),
{
    let mut args: Vec<String> = Vec::new();
    args.push(script);
    args.push(text);
    if let Some(tag) = language {
        args.push(tag);
    }
    let action = Action::Run { program: String::from_str(INTERPRETER), args };
    assert(action@->Run_args =~= polish_args(script@, text@, language_view(language)));
    action
}

} // verus!
