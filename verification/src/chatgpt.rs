//! The chat backend: a conversation that goes to the endpoint turn by turn.

use crate::completion::{code_of, CodeCompletion};
use crate::conversation::{copy_messages, turns_of, ChatMessage, Role, Turn};
use crate::error::{outcome, CompletionError, Error, ErrorView};
use crate::fence::extract;
use vstd::prelude::*;
use vstd::string::StringExecFns;

verus! {

/// Where chat requests go.
pub const CHAT_URL: &'static str = "https://api.openai.com/v1/chat/completions";

/// The model that chat requests name.
pub const CHAT_MODEL: &'static str = "gpt-3.5-turbo";

/// What goes to the chat endpoint: the model and every turn so far.
#[derive(Clone, Debug, PartialEq, Eq)]
pub struct Chat {
    pub model: String,
    pub messages: Vec<ChatMessage>,
}

/// What a candidate says. A candidate may come without content.
#[derive(Clone, Debug, PartialEq, Eq)]
pub struct ChatReply {
    pub role: Role,
    pub content: Option<String>,
}

/// One candidate of a chat response.
#[derive(Clone, Debug, PartialEq, Eq)]
pub struct ChatChoice {
    pub index: u32,
    pub message: ChatReply,
    pub finish_reason: String,
}

/// The token counts of a chat response.
#[derive(Clone, Copy, Debug, PartialEq, Eq, Structural)]
pub struct ChatUsage {
    pub prompt_tokens: u32,
    pub completion_tokens: u32,
    pub total_tokens: u32,
}

/// What comes back from the chat endpoint.
#[derive(Clone, Debug, PartialEq, Eq)]
pub struct ChatCompletion {
    pub id: String,
    pub object: String,
    pub created: u64,
    pub choices: Vec<ChatChoice>,
    pub usage: ChatUsage,
}

impl ChatCompletion {
    /// What the first candidate says: its content, where there is a
    /// candidate and it has content.
    pub open spec fn first_content(&self) -> Result<Seq<char>, CompletionError> {
        if self.choices@.len() == 0 {
            Err(CompletionError::NoChoice)
        } else {
            match self.choices@[0].message.content {
                Some(content) => Ok(content@),
                None => Err(CompletionError::NoContent),
            }
        }
    }

    /// What the first candidate says.
    pub fn first(&self) -> (content: Result<&String, CompletionError>)
        ensures
            match self.first_content() {
                Ok(text) => content matches Ok(s) && s@ == text,
                Err(e) => content == Err::<&String, CompletionError>(e),
            },
    {
        if self.choices.len() == 0 {
            return Err(CompletionError::NoChoice);
        }
        match &self.choices[0].message.content {
            Some(content) => Ok(content),
            None => Err(CompletionError::NoContent),
        }
    }
}

/// The code fenced in what the first candidate of `response` says.
pub fn extract_code(response: &ChatCompletion) -> (code: Result<String, Error>)
    ensures
        outcome(code) == match response.first_content() {
            Err(e) => Err::<Seq<char>, ErrorView>(ErrorView::Completion(e)),
            Ok(content) => code_of(content),
        },
{
    match response.first() {
        Err(e) => Err(Error::Completion(e)),
        Ok(content) => match extract(content.as_str()) {
            Ok(code) => Ok(code),
            Err(e) => Err(Error::Extraction(e, content.clone())),
        },
    }
}

/// The chat backend. It keeps the turns; every request names the one model.
#[derive(Debug)]
pub struct ChatGPT {
    messages: Vec<ChatMessage>,
}

impl ChatGPT {
    /// Adds a turn to the end of the conversation.
    pub fn add_message(&mut self, role: Role, content: String)
        ensures
            final(self).turns() == old(self).turns().push(Turn { role, content: content@ }),
    {
        let ghost turn = Turn { role, content: content@ };
        self.messages.push(ChatMessage { role, content });
        assert(turns_of(self.messages@) =~= turns_of(old(self).messages@).push(turn));
    }

    /// Takes the response to the last request: adds what its first candidate
    /// says to the conversation as an assistant turn, and returns it as it
    /// is. A response without a candidate, or whose first candidate says
    /// nothing, leaves the conversation as it was.
    pub fn completion(&mut self, response: &ChatCompletion) -> (reply: Result<
        String,
        CompletionError,
    >)
        ensures
            match response.first_content() {
                Err(e) => {
                    &&& final(self).turns() == old(self).turns()
                    &&& reply == Err::<String, CompletionError>(e)
                },
                Ok(content) => {
                    &&& final(self).turns() == old(self).turns().push(
                        Turn { role: Role::Assistant, content },
                    )
                    &&& reply matches Ok(text) && text@ == content
                },
            },
    {
        match response.first() {
            Err(e) => Err(e),
            Ok(content) => {
                let content = content.clone();
                self.add_message(Role::Assistant, content.clone());
                Ok(content)
            },
        }
    }

    /// The code fenced in the last turn of the conversation.
    pub fn extract_code(&self) -> (code: Result<String, Error>)
        requires
            self.turns().len() > 0,
        ensures
            outcome(code) == code_of(self.turns().last().content),
    {
        let last = &self.messages[self.messages.len() - 1];
        match extract(last.content.as_str()) {
            Ok(code) => Ok(code),
            Err(e) => Err(Error::Extraction(e, last.content.clone())),
        }
    }
}

impl CodeCompletion for ChatGPT {
    type Request = Chat;

    type Response = ChatCompletion;

    closed spec fn turns(&self) -> Seq<Turn> {
        turns_of(self.messages@)
    }

    open spec fn sends(turns: Seq<Turn>, request: &Chat) -> bool {
        request.model@ == CHAT_MODEL@ && turns_of(request.messages@) == turns
    }

    open spec fn first_choice(response: &ChatCompletion) -> Result<Seq<char>, CompletionError> {
        response.first_content()
    }

    fn new() -> (backend: Self) {
        let backend = ChatGPT { messages: Vec::new() };
        assert(turns_of(backend.messages@) =~= Seq::<Turn>::empty());
        backend
    }

    fn init(&mut self, init_prompt: String) {
        self.add_message(Role::System, init_prompt);
    }

    fn add_context(&mut self, context: String) {
        self.add_message(Role::User, context);
    }

    fn request(&self) -> (request: Chat) {
        Chat { model: String::from_str(CHAT_MODEL), messages: copy_messages(&self.messages) }
    }

    fn code_completion(&mut self, response: ChatCompletion) -> (code: Result<String, Error>) {
        match self.completion(&response) {
            Err(e) => Err(Error::Completion(e)),
            Ok(_) => self.extract_code(),
        }
    }
}

} // verus!
