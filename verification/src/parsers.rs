//! The input-processing pipeline: from one raw line to the command
//! tokens, the redirection, and the dispatched action.

use vstd::prelude::*;

use crate::commands::{action_matches, exec_command, CommandAction};
use crate::models::Binary;
use crate::redirect::{extract, redirect_view, spec_extract, Redirect};
use crate::tokenizer::{parse_chars, spec_tokenize};

verus! {

/// Everything the caller must do for one input line: the dispatched
/// action, and the redirection to apply to its result.
pub struct Plan {
    pub action: CommandAction,
    pub redirect: Option<Redirect>,
}

/// Tokenizes one raw line and splits off the redirection: the command
/// tokens in order, and the redirection the line named, if any.
pub fn parse_command(input: &str) -> (r: (Vec<String>, Option<Redirect>))
    ensures
        (r.0.deep_view(), redirect_view(r.1)) == spec_extract(spec_tokenize(input@)),
{
    let tokens = parse_chars(input);
    extract(tokens)
}

/// Processes one raw input line: tokenizes it, extracts the
/// redirection, and dispatches the command tokens against the
/// executable list and the home directory.
pub fn parse_input(input: &str, binaries: &Vec<Binary>, home: &str) -> (r: Plan)
    ensures
        action_matches(
            spec_extract(spec_tokenize(input@)).0,
            binaries@,
            home@,
            r.action,
        ),
        redirect_view(r.redirect) == spec_extract(spec_tokenize(input@)).1,
{
    let (tokens, redirect) = parse_command(input);
    let action = exec_command(tokens, binaries, home);
    Plan { action, redirect }
}

} // verus!
