//! What can go wrong between a reply and the code it was asked for.

use crate::fence::ExtractionError;
use vstd::prelude::*;
use vstd::string::StringExecFns;

verus! {

/// Why a response could not be used.
#[derive(Clone, Copy, Debug, PartialEq, Eq, Structural)]
pub enum CompletionError {
    /// The response offers no candidate.
    NoChoice,
    /// The first candidate of the response says nothing.
    NoContent,
    /// The conversation does not end with a reply.
    NoResponse,
}

/// What fenced code failed to be.
#[derive(Clone, Copy, Debug, PartialEq, Eq, Structural)]
pub enum SyntaxError {
    /// Neither one function nor one module.
    NotTestCase,
    /// Not a sequence of Rust tokens.
    NotCode,
}

/// Why a round of completion failed.
#[derive(Clone, Debug, PartialEq, Eq)]
pub enum Error {
    /// The response could not be used.
    Completion(CompletionError),
    /// The reply, which is the second field, holds no fenced block.
    Extraction(ExtractionError, String),
    /// The fenced code, which is the second field, is not of the expected
    /// syntax.
    Syntax(SyntaxError, String),
}

/// An `Error`, as contracts speak of it.
pub enum ErrorView {
    Completion(CompletionError),
    Extraction(ExtractionError, Seq<char>),
    Syntax(SyntaxError, Seq<char>),
}

impl View for Error {
    type V = ErrorView;

    open spec fn view(&self) -> ErrorView {
        match self {
            Error::Completion(e) => ErrorView::Completion(*e),
            Error::Extraction(e, reply) => ErrorView::Extraction(*e, reply@),
            Error::Syntax(e, code) => ErrorView::Syntax(*e, code@),
        }
    }
}

/// A result of text or failure, as contracts speak of it.
pub open spec fn outcome(result: Result<String, Error>) -> Result<Seq<char>, ErrorView> {
    match result {
        Ok(text) => Ok(text@),
        Err(e) => Err(e@),
    }
}

/// The words in which an error is reported.
pub open spec fn message_of(e: ErrorView) -> Seq<char> {
    match e {
        ErrorView::Completion(CompletionError::NoChoice) => "No choice found."@,
        ErrorView::Completion(CompletionError::NoContent) => "No content found."@,
        ErrorView::Completion(CompletionError::NoResponse) => "No response"@,
        ErrorView::Extraction(ExtractionError::NoOpenFence, reply) => {
            "No code block start found: "@ + reply
        },
        ErrorView::Extraction(ExtractionError::NoCloseFence, reply) => {
            "No code block end found: "@ + reply
        },
        ErrorView::Syntax(SyntaxError::NotTestCase, code) => {
            "Failed to parse the test case as a function or a module:\n"@ + code + "\n"@
        },
        ErrorView::Syntax(SyntaxError::NotCode, code) => {
            "Failed to parse the response as Rust code:\n"@ + code + "\n"@
        },
    }
}

impl Error {
    /// The words in which this error is reported.
    pub fn message(&self) -> (words: String)
        ensures
            words@ == message_of(self@),
    {
        match self {
            Error::Completion(CompletionError::NoChoice) => String::from_str("No choice found."),
            Error::Completion(CompletionError::NoContent) => String::from_str("No content found."),
            Error::Completion(CompletionError::NoResponse) => String::from_str("No response"),
            Error::Extraction(ExtractionError::NoOpenFence, reply) => {
                String::from_str("No code block start found: ").concat(reply.as_str())
            },
            Error::Extraction(ExtractionError::NoCloseFence, reply) => {
                String::from_str("No code block end found: ").concat(reply.as_str())
            },
            Error::Syntax(SyntaxError::NotTestCase, code) => {
                String::from_str(
                    "Failed to parse the test case as a function or a module:\n",
                ).concat(code.as_str()).concat("\n")
            },
            Error::Syntax(SyntaxError::NotCode, code) => {
                String::from_str("Failed to parse the response as Rust code:\n").concat(
                    code.as_str(),
                ).concat("\n")
            },
        }
    }
}

} // verus!
