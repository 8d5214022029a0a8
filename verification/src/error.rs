//! The ways in which running `git` can fail.

use crate::decimal::{append_decimal, decimal, lemma_decimal_one_line};
use crate::text::{lemma_one_line_joined, one_line, opt_text};
use vstd::prelude::*;
use vstd::string::*;

verus! {

/// Why no version could be read from a `git` command.
#[derive(Debug, Clone, PartialEq, Eq)]
pub enum ErrorKind {
    /// The `git` binary is not on the search path.
    ToolNotFound,
    /// The process could not be started, for another reason than a missing
    /// binary.  The text says why.
    SpawnFailed(String),
    /// The command ran and did not succeed.  `code` is its exit code where
    /// there is one, `detail` the first line that is not empty of what it
    /// wrote to standard error.
    ToolFailed { code: Option<i32>, detail: Option<String> },
    /// The command was ended by a signal.
    ToolKilled { signal: i32 },
    /// The command succeeded, and what it printed is not valid UTF-8.
    InvalidOutput,
}

/// The mathematical value of an [`ErrorKind`]: texts are sequences of
/// characters.
pub enum ErrorView {
    ToolNotFound,
    SpawnFailed(Seq<char>),
    ToolFailed { code: Option<i32>, detail: Option<Seq<char>> },
    ToolKilled { signal: i32 },
    InvalidOutput,
}

impl View for ErrorKind {
    type V = ErrorView;

    open spec fn view(&self) -> ErrorView {
        match *self {
            ErrorKind::ToolNotFound => ErrorView::ToolNotFound,
            ErrorKind::SpawnFailed(detail) => ErrorView::SpawnFailed(detail@),
            ErrorKind::ToolFailed { code, detail } => ErrorView::ToolFailed {
                code,
                detail: opt_text(detail),
            },
            ErrorKind::ToolKilled { signal } => ErrorView::ToolKilled { signal },
            ErrorKind::InvalidOutput => ErrorView::InvalidOutput,
        }
    }
}

impl ErrorView {
    /// The error in one line of words.  `label` is the name of the command
    /// that failed, such as `git describe`.
    pub open spec fn message(self, label: Seq<char>) -> Seq<char> {
        match self {
            ErrorView::ToolNotFound => "Command `git` not found: is git installed?"@,
            ErrorView::SpawnFailed(why) => "Failed to run `git`: "@ + why,
            ErrorView::ToolFailed { code, detail } => {
                let ending = match code {
                    Some(code) => " exited with status "@ + decimal(code as int),
                    None => " exitted with error"@,
                };
                match detail {
                    Some(detail) => label + ending + ": "@ + detail,
                    None => label + ending,
                }
            },
            ErrorView::ToolKilled { signal } => label + " killed by signal "@ + decimal(
                signal as int,
            ),
            ErrorView::InvalidOutput => "Failed to parse output of `"@ + label
                + "`: output contains invalid UTF-8"@,
        }
    }
}

/// The words for an error stand in one line, provided that the name of the
/// command and the texts that the error carries do.
pub proof fn lemma_message_is_one_line(error: ErrorView, label: Seq<char>)
    requires
        one_line(label),
        error matches ErrorView::SpawnFailed(why) ==> one_line(why),
        (error matches ErrorView::ToolFailed { detail: Some(detail), .. } ==> one_line(detail)),
    ensures
        one_line(error.message(label)),
{
    reveal_strlit("Command `git` not found: is git installed?");
    reveal_strlit("Failed to run `git`: ");
    reveal_strlit(" exited with status ");
    reveal_strlit(" exitted with error");
    reveal_strlit(": ");
    reveal_strlit(" killed by signal ");
    reveal_strlit("Failed to parse output of `");
    reveal_strlit("`: output contains invalid UTF-8");
    match error {
        ErrorView::ToolNotFound => {},
        ErrorView::SpawnFailed(why) => {
            lemma_one_line_joined("Failed to run `git`: "@, why);
        },
        ErrorView::ToolFailed { code, detail } => {
            let ending = match code {
                Some(code) => " exited with status "@ + decimal(code as int),
                None => " exitted with error"@,
            };
            if let Some(code) = code {
                lemma_decimal_one_line(code as int);
                lemma_one_line_joined(" exited with status "@, decimal(code as int));
            }
            lemma_one_line_joined(label, ending);
            if let Some(detail) = detail {
                lemma_one_line_joined(label + ending, ": "@);
                lemma_one_line_joined(label + ending + ": "@, detail);
            }
        },
        ErrorView::ToolKilled { signal } => {
            lemma_decimal_one_line(signal as int);
            lemma_one_line_joined(label, " killed by signal "@);
            lemma_one_line_joined(label + " killed by signal "@, decimal(signal as int));
        },
        ErrorView::InvalidOutput => {
            lemma_one_line_joined("Failed to parse output of `"@, label);
            lemma_one_line_joined(
                "Failed to parse output of `"@ + label,
                "`: output contains invalid UTF-8"@,
            );
        },
    }
}

impl ErrorKind {
    /// Says in one line of words what went wrong with the command that goes
    /// by the name `label`.
    pub fn message(&self, label: &str) -> (text: String)
        ensures
            text@ == self@.message(label@),
    {
        match self {
            ErrorKind::ToolNotFound => "Command `git` not found: is git installed?".to_owned(),
            ErrorKind::SpawnFailed(why) => {
                let mut text = "Failed to run `git`: ".to_owned();
                text.append(why.as_str());
                text
            },
            ErrorKind::ToolFailed { code, detail } => {
                let mut text = label.to_owned();
                match code {
                    Some(code) => {
                        text.append(" exited with status ");
                        append_decimal(&mut text, *code);
                    },
                    None => {
                        text.append(" exitted with error");
                    },
                }
                match detail {
                    Some(detail) => {
                        text.append(": ");
                        text.append(detail.as_str());
                    },
                    None => {},
                }
                text
            },
            ErrorKind::ToolKilled { signal } => {
                let mut text = label.to_owned();
                text.append(" killed by signal ");
                append_decimal(&mut text, *signal);
                text
            },
            ErrorKind::InvalidOutput => {
                let mut text = "Failed to parse output of `".to_owned();
                text.append(label);
                text.append("`: output contains invalid UTF-8");
                text
            },
        }
    }
}

} // verus!
