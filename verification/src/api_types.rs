//! Answers to commands.

use vstd::prelude::*;
use crate::text::cat2;

verus! {

/// The body of an answer.
#[derive(Clone, Debug)]
pub enum CommandBody {
    Null,
    Flag(bool),
    Text(String),
    /// Any other JSON, in its compact text.
    Other(String),
}

/// The answer to a command, whatever carried it.
#[derive(Clone, Debug)]
pub struct CommandResponse {
    pub response: CommandBody,
    pub error: String,
    pub status_code: i32,
    pub success: bool,
    pub response_type: String,
}

impl CommandResponse {
    /// The command was accepted and has not come to its end.
    pub fn is_pending(&self) -> (r: bool)
        ensures
            r == (self.success && self.status_code == 202),
    {
        self.success && self.status_code == 202
    }

    pub open spec fn summary_text(&self) -> Seq<char> {
        if !self.success {
            if self.error@.len() == 0 {
                "failed"@
            } else {
                "failed: "@ + self.error@
            }
        } else {
            match self.response {
                CommandBody::Null => "ok"@,
                CommandBody::Flag(b) => if b {
                    "true"@
                } else {
                    "false"@
                },
                CommandBody::Text(t) => if t@.len() == 0 {
                    "\"\""@
                } else {
                    t@
                },
                CommandBody::Other(t) => t@,
            }
        }
    }

    /// The answer in a few words.
    pub fn summary(&self) -> (r: String)
        ensures
            r@ == self.summary_text(),
    {
        if !self.success {
            return if self.error.as_str().is_empty() {
                String::from_str("failed")
            } else {
                cat2("failed: ", self.error.as_str())
            };
        }
        match &self.response {
            CommandBody::Null => String::from_str("ok"),
            CommandBody::Flag(b) => String::from_str(
                if *b {
                    "true"
                } else {
                    "false"
                },
            ),
            CommandBody::Text(t) => if t.as_str().is_empty() {
                String::from_str("\"\"")
            } else {
                t.clone()
            },
            CommandBody::Other(t) => t.clone(),
        }
    }
}

} // verus!
