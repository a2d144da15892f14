//! How a command's result is read off what happened: the helper's output,
//! or the failure that kept it from running.

use vstd::prelude::*;
use vstd::string::*;
use crate::protocol::{Output, OutputView, outcome_view};
use crate::text::{decode_lossy, lossy_text, tidy, trimmed};

verus! {

/// What a helper's output means. A helper that reports success has written
/// its answer to standard output, and the white space around it does not
/// count. One that reports failure has said why on standard error, and that
/// text is the error as it stands.
pub open spec fn interpretation(output: OutputView) -> Result<Seq<char>, Seq<char>> {
    if output.success {
        Ok(trimmed(lossy_text(output.stdout)))
    } else {
        Err(lossy_text(output.stderr))
    }
}

/// Reads the command's result off the output of its helper.
pub fn interpret(output: &Output) -> (result: Result<String, String>)
    ensures
        outcome_view(result) == interpretation(output@),
{
    if output.success {
        let text = decode_lossy(output.stdout.as_slice());
        Ok(tidy(text.as_str()))
    } else {
        Err(decode_lossy(output.stderr.as_slice()))
    }
}

/// The message for a failure of the kind that `prefix` names, with the
/// `reason` that the system gave.
pub open spec fn failure(prefix: Seq<char>, reason: Seq<char>) -> Seq<char> {
    prefix + ": "@ + reason
}

/// Names the failure to write the audio file.
pub const WRITE_FAILED: &'static str = "Failed to write audio file";

/// Names the failure to find out the working directory.
pub const NO_WORKING_DIR: &'static str = "Failed to get current dir";

/// Names the failure to start the interpreter.
pub const NOT_LAUNCHED: &'static str = "Failed to run python";

/// The error of a session that was handed a reply to an action it had not
/// asked for.
pub const UNEXPECTED_REPLY: &'static str = "unexpected reply";

/// Builds the message for a failure of the kind that `prefix` names.
pub fn describe_failure(prefix: &str, reason: &str) -> (message: String)
    ensures
        message@ == failure(prefix@, reason@),
{
    let mut message = String::from_str(prefix);
    message.append(": ");
    message.append(reason);
    message
}

} // verus!
