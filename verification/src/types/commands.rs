//! The argument records of the token commands.
//!
//! The commands themselves talk to the platform's secure store and to the
//! network, so their `run` loops live in the surrounding program; the
//! records here carry the parsed arguments into it.

use vstd::prelude::*;

verus! {

/// Arguments of the command that removes the stored token.
#[derive(Clone, Debug)]
pub struct RemoveToken {
    /// Skip the confirmation prompt before deleting.
    pub skip_prompt: bool,
}

impl RemoveToken {
    pub fn new(skip_prompt: bool) -> (r: RemoveToken)
        ensures
            r.skip_prompt == skip_prompt,
    {
        RemoveToken { skip_prompt }
    }

    /// Whether the stored token may be deleted, given the prompt's
    /// answer; with `skip_prompt` no answer is needed.
    pub fn confirms_delete(&self, prompt_answer: bool) -> (r: bool)
        ensures
            r == (self.skip_prompt || prompt_answer),
    {
        self.skip_prompt || prompt_answer
    }
}

/// Arguments of the command that stores a new token.
#[derive(Clone, Debug)]
pub struct UpdateToken {
    /// The token to store; prompted for interactively when absent.
    pub token: Option<String>,
}

impl UpdateToken {
    pub fn new(token: Option<String>) -> (r: UpdateToken)
        ensures
            r.token == token,
    {
        UpdateToken { token }
    }
}

} // verus!
