//! Asking for the implementation of a function, in one round.
//!
//! `AutoImpl` decides and sends nothing. `completion` says what to send, and
//! `reply` takes what came back.

use crate::step::Phase;
use crate::completion::{code_of, CodeCompletion};
use crate::conversation::{Role, Turn};
use crate::error::{outcome, Error, ErrorView, SyntaxError};
use crate::prompt::{
    implement_instruction, implement_prompt, read_incomplete, read_incomplete_prompt,
    IMPL_SYSTEM_PROMPT,
};
use crate::syntax::check_code;
use vstd::prelude::*;
use vstd::string::StringExecFns;

verus! {

/// The work of asking a backend to complete one piece of code.
pub struct AutoImpl<C: CodeCompletion> {
    token_stream: String,
    doc: String,
    code_completion: C,
    phase: Phase,
}

impl<C: CodeCompletion> AutoImpl<C> {
    /// The code to complete.
    pub closed spec fn source(&self) -> Seq<char> {
        self.token_stream@
    }

    /// What the code is to do.
    pub closed spec fn description(&self) -> Seq<char> {
        self.doc@
    }

    /// The conversation so far.
    pub closed spec fn turns(&self) -> Seq<Turn> {
        self.code_completion.turns()
    }

    /// Where the work stands.
    pub closed spec fn phase_of(&self) -> Phase {
        self.phase
    }

    /// Before the start nothing has been said.
    pub open spec fn wf(&self) -> bool {
        self.phase_of() == Phase::Created ==> self.turns().len() == 0
    }

    /// The work for the code `token_stream`, which is to do what `doc` says,
    /// before its start.
    pub fn new(token_stream: String, doc: String) -> (work: Self)
        ensures
            work.wf(),
            work.phase_of() == Phase::Created,
            work.source() == token_stream@,
            work.description() == doc@,
    {
        AutoImpl { token_stream, doc, code_completion: C::new(), phase: Phase::Created }
    }

    /// Where the work stands.
    pub fn phase(&self) -> (phase: Phase)
        ensures
            phase == self.phase_of(),
    {
        self.phase
    }

    /// Starts the work: frames the conversation, shows the code, asks for
    /// its completion, and returns what to send.
    pub fn completion(&mut self) -> (request: C::Request)
        requires
            old(self).wf(),
            old(self).phase_of() == Phase::Created,
        ensures
            final(self).wf(),
            final(self).phase_of() == Phase::Awaiting,
            final(self).source() == old(self).source(),
            final(self).description() == old(self).description(),
            final(self).turns() == seq![
                Turn { role: Role::System, content: IMPL_SYSTEM_PROMPT@ },
                Turn { role: Role::User, content: read_incomplete(old(self).source()) },
                Turn { role: Role::User, content: implement_instruction(old(self).description()) },
            ],
            C::sends(final(self).turns(), &request),
    {
        self.code_completion.init(String::from_str(IMPL_SYSTEM_PROMPT));
        self.code_completion.add_context(read_incomplete_prompt(self.token_stream.as_str()));
        self.code_completion.add_context(implement_prompt(self.doc.as_str()));
        self.phase = Phase::Awaiting;
        assert(self.code_completion.turns() =~= seq![
            Turn { role: Role::System, content: IMPL_SYSTEM_PROMPT@ },
            Turn { role: Role::User, content: read_incomplete(old(self).source()) },
            Turn { role: Role::User, content: implement_instruction(old(self).description()) },
        ]);
        self.code_completion.request()
    }

    /// Reads `code` as Rust code: hands it on where it is a sequence of
    /// tokens, and fails where it is not.
    pub fn parse_str(&self, code: String) -> (result: Result<String, Error>)
        ensures
            outcome(result) == Ok::<Seq<char>, ErrorView>(code@) || outcome(result) == Err::<
                Seq<char>,
                ErrorView,
            >(ErrorView::Syntax(SyntaxError::NotCode, code@)),
    {
        check_code(code)
    }

    /// Takes the response to the request that is out. Its first candidate
    /// joins the conversation as an assistant turn, and the code fenced in
    /// it is returned where it reads as Rust code. The work is done then,
    /// and has failed otherwise.
    pub fn reply(&mut self, response: C::Response) -> (code: Result<String, Error>)
        requires
            old(self).wf(),
            old(self).phase_of() == Phase::Awaiting,
        ensures
            final(self).wf(),
            final(self).source() == old(self).source(),
            final(self).description() == old(self).description(),
            final(self).phase_of() == if code is Ok {
                Phase::Done
            } else {
                Phase::Failed
            },
            match C::first_choice(&response) {
                Err(e) => {
                    &&& final(self).turns() == old(self).turns()
                    &&& outcome(code) == Err::<Seq<char>, ErrorView>(ErrorView::Completion(e))
                },
                Ok(reply) => {
                    &&& final(self).turns() == old(self).turns().push(
                        Turn { role: Role::Assistant, content: reply },
                    )
                    &&& match code_of(reply) {
                        Err(e) => outcome(code) == Err::<Seq<char>, ErrorView>(e),
                        Ok(fenced) => {
                            ||| outcome(code) == Ok::<Seq<char>, ErrorView>(fenced)
                            ||| outcome(code) == Err::<Seq<char>, ErrorView>(
                                ErrorView::Syntax(SyntaxError::NotCode, fenced),
                            )
                        },
                    }
                },
            },
    {
        let code = match self.code_completion.code_completion(response) {
            Err(e) => Err(e),
            Ok(fenced) => self.parse_str(fenced),
        };
        self.phase = if code.is_ok() {
            Phase::Done
        } else {
            Phase::Failed
        };
        code
    }
}

} // verus!
