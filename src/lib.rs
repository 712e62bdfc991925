//! The native side of the aesthetxt desktop shell.
//!
//! The window, the event loop and command dispatch belong to the desktop
//! framework; what the shell itself decides is gathered here: the handler of
//! the front end's `ready` command, what the setup hook writes for the outcome
//! of command-line parsing, and the message with which a failed start ends.
use vstd::prelude::*;

verus! {

/// Message with which the process ends when the application fails to start.
pub const STARTUP_FAILURE_MESSAGE: &'static str = "error while running aesthetxt";

/// Handler of the front end's `ready` command.
///
/// It takes no argument, returns no value, changes no state and always
/// completes.
pub fn ready() {
}

/// What the setup hook writes to the console for the outcome of
/// command-line parsing.
///
/// When parsing succeeded, `parsed` holds the rendered matches and they are
/// written as they are; when it failed, the error is discarded and nothing is
/// written.
pub fn cli_matches_line<E>(parsed: Result<String, E>) -> (line: Option<String>)
    ensures
        match parsed {
            Ok(text) => line == Some(text),
            Err(_) => line is None,
        },
{
    match parsed {
        Ok(text) => Some(text),
        Err(_) => None,
    }
}

} // verus!
