//! Decision logic of a small desktop shell that greets, transcribes audio and
//! polishes text by handing the work to helper scripts.
//!
//! The crate performs no input or output. A command is a session: it names
//! the next action for its caller to perform, the caller reports what came of
//! it, and the session answers with the next action or with the final result.

pub mod greeting;
pub mod invocation;
pub mod polish;
pub mod protocol;
pub mod recognize;
pub mod report;
pub mod text;
