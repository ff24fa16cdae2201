//! What every completion backend offers.

use crate::conversation::{Role, Turn};
use crate::error::{outcome, CompletionError, Error, ErrorView};
use crate::fence::extracted;
use vstd::prelude::*;

verus! {

/// What a round yields once its reply is known: the code of the reply's first
/// fenced block, or why there is none.
pub open spec fn code_of(reply: Seq<char>) -> Result<Seq<char>, ErrorView> {
    match extracted(reply) {
        Ok(code) => Ok(code),
        Err(e) => Err(ErrorView::Extraction(e, reply)),
    }
}

/// A backend that keeps one conversation and completes it round by round.
///
/// A backend sends and receives nothing itself. A round goes: `request` says
/// what to send, whoever holds the transport sends it, and `code_completion`
/// takes what came back.
pub trait CodeCompletion: Sized {
    /// What goes to the endpoint.
    type Request;

    /// What comes back from it.
    type Response;

    /// The conversation so far.
    spec fn turns(&self) -> Seq<Turn>;

    /// Whether `request` is what this backend sends for the conversation
    /// `turns`.
    spec fn sends(turns: Seq<Turn>, request: &Self::Request) -> bool;

    /// What the first candidate of `response` says, or why the response
    /// cannot be used.
    spec fn first_choice(response: &Self::Response) -> Result<Seq<char>, CompletionError>;

    /// A backend with an empty conversation.
    fn new() -> (backend: Self)
        ensures
            backend.turns() == Seq::<Turn>::empty(),
    ;

    /// Adds a system turn that frames the conversation.
    fn init(&mut self, init_prompt: String)
        ensures
            final(self).turns() == old(self).turns().push(
                Turn { role: Role::System, content: init_prompt@ },
            ),
    ;

    /// Adds a user turn that holds `context` as it is.
    fn add_context(&mut self, context: String)
        ensures
            final(self).turns() == old(self).turns().push(
                Turn { role: Role::User, content: context@ },
            ),
    ;

    /// What to send for the conversation so far.
    fn request(&self) -> (request: Self::Request)
        ensures
            Self::sends(self.turns(), &request),
    ;

    /// Takes the response to the last request: adds what its first candidate
    /// says to the conversation as an assistant turn, and returns the code
    /// fenced in it. A response that cannot be used leaves the conversation as
    /// it was.
    fn code_completion(&mut self, response: Self::Response) -> (code: Result<String, Error>)
        ensures
            match Self::first_choice(&response) {
                Err(e) => {
                    &&& final(self).turns() == old(self).turns()
                    &&& outcome(code) == Err::<Seq<char>, ErrorView>(ErrorView::Completion(e))
                },
                Ok(reply) => {
                    &&& final(self).turns() == old(self).turns().push(
                        Turn { role: Role::Assistant, content: reply },
                    )
                    &&& outcome(code) == code_of(reply)
                },
            },
    ;
}

} // verus!
