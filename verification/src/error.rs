//! The error taxonomy of the pipeline. Every failure a component can report
//! is one of these leaves; the state machine decides from the variant whether
//! a retry is offered.

use vstd::prelude::*;
use crate::text::dec_seq;
use crate::text::u64_to_string;

verus! {

#[derive(Debug, Clone)]
pub enum YetiError {
    NotAGitRepo,
    NoChangesToCommit,
    InvalidApiKey(String),
    ApiError { status: u16, message: String },
    NetworkError(String),
    CommitFailed(String),
    IoError(String),
}

/// The human-readable rendering of each error variant.
pub open spec fn error_message_spec(e: YetiError) -> Seq<char> {
    match e {
        YetiError::NotAGitRepo => "Not inside a git repository"@,
        YetiError::NoChangesToCommit => "No changes to commit"@,
        YetiError::InvalidApiKey(m) => "Invalid API key: "@ + m@,
        YetiError::ApiError { status, message } => "API error ("@ + dec_seq(status as nat) + "): "@
            + message@,
        YetiError::NetworkError(m) => "Network error: "@ + m@,
        YetiError::CommitFailed(m) => "Git commit failed: "@ + m@,
        YetiError::IoError(m) => "IO error: "@ + m@,
    }
}

impl YetiError {
    /// Renders the error for display.
    pub fn message(&self) -> (r: String)
        ensures
            r@ == error_message_spec(*self),
    {
        match self {
            YetiError::NotAGitRepo => "Not inside a git repository".to_owned(),
            YetiError::NoChangesToCommit => "No changes to commit".to_owned(),
            YetiError::InvalidApiKey(m) => {
                let mut s = "Invalid API key: ".to_owned();
                s.append(m.as_str());
                s
            },
            YetiError::ApiError { status, message } => {
                let mut s = "API error (".to_owned();
                let num = u64_to_string(*status as u64);
                s.append(num.as_str());
                s.append("): ");
                s.append(message.as_str());
                proof {
                    assert(s@ =~= error_message_spec(*self));
                }
                s
            },
            YetiError::NetworkError(m) => {
                let mut s = "Network error: ".to_owned();
                s.append(m.as_str());
                s
            },
            YetiError::CommitFailed(m) => {
                let mut s = "Git commit failed: ".to_owned();
                s.append(m.as_str());
                s
            },
            YetiError::IoError(m) => {
                let mut s = "IO error: ".to_owned();
                s.append(m.as_str());
                s
            },
        }
    }
}

} // verus!
