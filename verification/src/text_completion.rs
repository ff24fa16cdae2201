//! The text backend: a conversation that goes to the endpoint as one prompt.

use crate::completion::{code_of, CodeCompletion};
use crate::conversation::{
    join_contents, joined, last_reply, turns_of, ChatMessage, Role, Turn,
};
use crate::error::{outcome, CompletionError, Error, ErrorView};
use crate::fence::extract;
use vstd::prelude::*;
use vstd::string::StringExecFns;

verus! {

/// Where text requests go.
pub const TEXT_URL: &'static str = "https://api.openai.com/v1/completions";

/// The model that text requests name.
pub const TEXT_MODEL: &'static str = "text-davinci-003";

/// How many tokens a text request lets the answer have.
pub const MAX_TOKENS: u32 = 1024;

/// What goes to the text endpoint. The sampling temperature, which is zero
/// in every request, is added where the request is written out.
#[derive(Clone, Debug, PartialEq, Eq)]
pub struct CompletionRequest {
    pub model: String,
    pub prompt: String,
    pub max_tokens: u32,
}

/// One candidate of a text response.
#[derive(Clone, Debug, PartialEq, Eq)]
pub struct CompletionChoice {
    pub text: String,
    pub index: u32,
    pub logprobs: Option<u32>,
    pub finish_reason: String,
}

/// The token counts of a text response.
#[derive(Clone, Copy, Debug, PartialEq, Eq, Structural)]
pub struct CompletionUsage {
    pub prompt_tokens: u32,
    pub completion_tokens: u32,
    pub total_tokens: u32,
}

/// What comes back from the text endpoint.
#[derive(Clone, Debug, PartialEq, Eq)]
pub struct CompletionResponse {
    pub id: String,
    pub object: String,
    pub created: u64,
    pub model: String,
    pub choices: Vec<CompletionChoice>,
    pub usage: CompletionUsage,
}

impl CompletionResponse {
    /// The text of the first candidate, where there is a candidate.
    pub open spec fn first_text(&self) -> Result<Seq<char>, CompletionError> {
        if self.choices@.len() > 0 {
            Ok(self.choices@[0].text@)
        } else {
            Err(CompletionError::NoChoice)
        }
    }
}

/// The text backend. It keeps the turns; a request holds what they say as
/// one prompt, in which the roles no longer show.
#[derive(Debug)]
pub struct TextCompletion {
    turns: Vec<ChatMessage>,
}

impl TextCompletion {
    /// Adds a turn to the end of the conversation.
    fn add_prompt(&mut self, role: Role, content: String)
        ensures
            final(self).turns() == old(self).turns().push(Turn { role, content: content@ }),
    {
        let ghost turn = Turn { role, content: content@ };
        self.turns.push(ChatMessage { role, content });
        assert(turns_of(self.turns@) =~= turns_of(old(self).turns@).push(turn));
    }

    /// Takes the response to the last request: adds the text of its first
    /// candidate to the conversation as an assistant turn, and returns it as
    /// it is. A response without a candidate leaves the conversation as it
    /// was.
    pub fn completion(&mut self, response: &CompletionResponse) -> (reply: Result<
        String,
        CompletionError,
    >)
        ensures
            match response.first_text() {
                Err(e) => {
                    &&& final(self).turns() == old(self).turns()
                    &&& reply == Err::<String, CompletionError>(e)
                },
                Ok(text) => {
                    &&& final(self).turns() == old(self).turns().push(
                        Turn { role: Role::Assistant, content: text },
                    )
                    &&& reply matches Ok(t) && t@ == text
                },
            },
    {
        if response.choices.len() == 0 {
            return Err(CompletionError::NoChoice);
        }
        let text = response.choices[0].text.clone();
        self.add_prompt(Role::Assistant, text.clone());
        Ok(text)
    }

    /// The code fenced in the reply with which the conversation ends. Where
    /// it does not end with a reply, there is no response to read.
    pub fn extract_code(&self) -> (code: Result<String, Error>)
        ensures
            outcome(code) == match last_reply(self.turns()) {
                None => Err::<Seq<char>, ErrorView>(
                    ErrorView::Completion(CompletionError::NoResponse),
                ),
                Some(reply) => code_of(reply),
            },
    {
        let n = self.turns.len();
        if n == 0 {
            return Err(Error::Completion(CompletionError::NoResponse));
        }
        let last = &self.turns[n - 1];
        match last.role {
            Role::Assistant => match extract(last.content.as_str()) {
                Ok(code) => Ok(code),
                Err(e) => Err(Error::Extraction(e, last.content.clone())),
            },
            _ => Err(Error::Completion(CompletionError::NoResponse)),
        }
    }
}

impl CodeCompletion for TextCompletion {
    type Request = CompletionRequest;

    type Response = CompletionResponse;

    closed spec fn turns(&self) -> Seq<Turn> {
        turns_of(self.turns@)
    }

    open spec fn sends(turns: Seq<Turn>, request: &CompletionRequest) -> bool {
        &&& request.model@ == TEXT_MODEL@
        &&& request.prompt@ == joined(turns)
        &&& request.max_tokens == MAX_TOKENS
    }

    open spec fn first_choice(response: &CompletionResponse) -> Result<
        Seq<char>,
        CompletionError,
    > {
        response.first_text()
    }

    fn new() -> (backend: Self) {
        let backend = TextCompletion { turns: Vec::new() };
        assert(turns_of(backend.turns@) =~= Seq::<Turn>::empty());
        backend
    }

    fn init(&mut self, init_prompt: String) {
        self.add_prompt(Role::System, init_prompt);
    }

    fn add_context(&mut self, context: String) {
        self.add_prompt(Role::User, context);
    }

    fn request(&self) -> (request: CompletionRequest) {
        CompletionRequest {
            model: String::from_str(TEXT_MODEL),
            prompt: join_contents(&self.turns),
            max_tokens: MAX_TOKENS,
        }
    }

    fn code_completion(&mut self, response: CompletionResponse) -> (code: Result<String, Error>) {
        match self.completion(&response) {
            Err(e) => Err(Error::Completion(e)),
            Ok(_) => self.extract_code(),
        }
    }
}

} // verus!
