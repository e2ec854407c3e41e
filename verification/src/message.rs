//! The message resolver: exactly one status line is shown per frame,
//! picked by strict priority — an engine error first, then a warning,
//! then non-empty public output, then the static welcome text. A
//! lower-priority message is fully suppressed, never concatenated.

use vstd::prelude::*;
use vstd::string::StringExecFns;

use crate::state::DebuggerState;
use crate::text::join_elements;
use crate::text::joined_elements;

verus! {

/// The text an optional report carries; empty when there is none.
pub open spec fn opt_text(o: Option<String>) -> Seq<char> {
    match o {
        Some(s) => s@,
        None => Seq::empty(),
    }
}

/// The static welcome and help line.
pub open spec fn welcome_text() -> Seq<char> {
    "Welcome to the Triton VM TUI! Press `h` for help."@
}

/// The error line: the engine's report under an `ERROR` label.
pub open spec fn error_text(state: DebuggerState) -> Seq<char> {
    "ERROR: "@ + opt_text(state.error)
}

/// The warning line: the engine's report under a `WARNING` label.
pub open spec fn warning_text(state: DebuggerState) -> Seq<char> {
    "WARNING: "@ + opt_text(state.warning)
}

/// The public-output line: the output stream as a bracketed,
/// comma-joined list.
pub open spec fn public_output_text(state: DebuggerState) -> Seq<char> {
    "Public output: ["@ + joined_elements(state.vm_state.public_output@) + "]"@
}

/// Which single message a frame shows.
pub open spec fn message_text(state: DebuggerState) -> Seq<char> {
    if state.error is Some {
        error_text(state)
    } else if state.warning is Some {
        warning_text(state)
    } else if state.vm_state.public_output@.len() > 0 {
        public_output_text(state)
    } else {
        welcome_text()
    }
}

/// The error line, when the snapshot carries an error.
pub fn maybe_render_error_message(state: &DebuggerState) -> (r: Option<String>)
    ensures
        r is Some <==> state.error is Some,
        r is Some ==> r->0@ == error_text(*state),
{
    match &state.error {
        Some(e) => {
            let mut s = "ERROR: ".to_owned();
            s.append(e.as_str());
            Some(s)
        },
        None => None,
    }
}

/// The warning line, when the snapshot carries a warning.
pub fn maybe_render_warning_message(state: &DebuggerState) -> (r: Option<String>)
    ensures
        r is Some <==> state.warning is Some,
        r is Some ==> r->0@ == warning_text(*state),
{
    match &state.warning {
        Some(w) => {
            let mut s = "WARNING: ".to_owned();
            s.append(w.as_str());
            Some(s)
        },
        None => None,
    }
}

/// The public-output line, when the output stream is non-empty.
pub fn maybe_render_public_output(state: &DebuggerState) -> (r: Option<String>)
    ensures
        r is Some <==> state.vm_state.public_output@.len() > 0,
        r is Some ==> r->0@ == public_output_text(*state),
{
    if state.vm_state.public_output.len() == 0 {
        return None;
    }
    let mut s = "Public output: [".to_owned();
    let joined = join_elements(&state.vm_state.public_output);
    s.append(joined.as_str());
    s.append("]");
    Some(s)
}

/// The static welcome and help line.
pub fn render_welcome_message() -> (r: String)
    ensures
        r@ == welcome_text(),
{
    "Welcome to the Triton VM TUI! Press `h` for help.".to_owned()
}

/// The one status line of the frame, picked by strict priority.
pub fn message(state: &DebuggerState) -> (r: String)
    ensures
        r@ == message_text(*state),
{
    if let Some(m) = maybe_render_error_message(state) {
        return m;
    }
    if let Some(m) = maybe_render_warning_message(state) {
        return m;
    }
    if let Some(m) = maybe_render_public_output(state) {
        return m;
    }
    render_welcome_message()
}

/// Message selection is strictly prioritized: with an error present only
/// the error line shows, whatever else the snapshot carries; with a
/// warning and no error, only the warning line shows, public output or
/// not.
pub proof fn lemma_message_priority(state: DebuggerState)
    ensures
        state.error is Some ==> message_text(state) == error_text(state),
        state.error is None && state.warning is Some ==> message_text(state) == warning_text(
            state,
        ),
{
}

} // verus!
