//! Conversations: the turns that make up the history of a completion.

use crate::text::same_text;
use vstd::prelude::*;

verus! {

/// The speaker of one turn.
#[derive(Clone, Copy, Debug, PartialEq, Eq, Structural)]
pub enum Role {
    User,
    System,
    Assistant,
}

impl Role {
    /// The token that stands for this role on the wire.
    pub open spec fn wire_name(self) -> Seq<char> {
        match self {
            Role::User => "user"@,
            Role::System => "system"@,
            Role::Assistant => "assistant"@,
        }
    }

    /// The role for which the token `name` stands on the wire, if it stands
    /// for one.
    pub open spec fn named(name: Seq<char>) -> Option<Role> {
        if name == "user"@ {
            Some(Role::User)
        } else if name == "system"@ {
            Some(Role::System)
        } else if name == "assistant"@ {
            Some(Role::Assistant)
        } else {
            None
        }
    }

    /// The role for which the token `name` stands on the wire.
    pub fn from_name(name: &str) -> (role: Option<Role>)
        ensures
            role == Role::named(name@),
    {
        if same_text(name, "user") {
            Some(Role::User)
        } else if same_text(name, "system") {
            Some(Role::System)
        } else if same_text(name, "assistant") {
            Some(Role::Assistant)
        } else {
            None
        }
    }

    /// The lowercase token that a chat endpoint expects for this role.
    pub fn as_str(&self) -> (name: &'static str)
        ensures
            name@ == self.wire_name(),
    {
        match self {
            Role::User => "user",
            Role::System => "system",
            Role::Assistant => "assistant",
        }
    }
}

/// One turn of a conversation, as contracts speak of it.
pub struct Turn {
    pub role: Role,
    pub content: Seq<char>,
}

/// One turn of a conversation: who speaks, and what is said.
#[derive(Debug, PartialEq, Eq)]
pub struct ChatMessage {
    pub role: Role,
    pub content: String,
}

impl View for ChatMessage {
    type V = Turn;

    open spec fn view(&self) -> Turn {
        Turn { role: self.role, content: self.content@ }
    }
}

impl Clone for ChatMessage {
    fn clone(&self) -> (message: Self)
        ensures
            message@ == self@,
    {
        ChatMessage { role: self.role, content: self.content.clone() }
    }
}

/// The turns that a list of messages stands for.
pub open spec fn turns_of(messages: Seq<ChatMessage>) -> Seq<Turn> {
    Seq::new(messages.len(), |i: int| messages[i]@)
}

/// The reply with which `turns` ends: what its last turn says, where that
/// is an assistant turn.
pub open spec fn last_reply(turns: Seq<Turn>) -> Option<Seq<char>> {
    if turns.len() > 0 && turns.last().role == Role::Assistant {
        Some(turns.last().content)
    } else {
        None
    }
}

/// The contents of `turns`, in order, with a line break between one and the
/// next. The roles play no part.
pub open spec fn joined(turns: Seq<Turn>) -> Seq<char>
    decreases turns.len(),
{
    if turns.len() == 0 {
        Seq::empty()
    } else if turns.len() == 1 {
        turns[0].content
    } else {
        joined(turns.drop_last()) + seq!['\n'] + turns.last().content
    }
}

/// A turn more adds its content to the joined contents, after a line break
/// where a turn stood before it.
pub proof fn lemma_joined_push(turns: Seq<Turn>, turn: Turn)
    ensures
        joined(turns.push(turn)) == if turns.len() == 0 {
            turn.content
        } else {
            joined(turns) + seq!['\n'] + turn.content
        },
{
    assert(turns.push(turn).drop_last() =~= turns);
}

/// A copy of `messages`.
pub fn copy_messages(messages: &Vec<ChatMessage>) -> (copy: Vec<ChatMessage>)
    ensures
        turns_of(copy@) == turns_of(messages@),
{
    let mut copy: Vec<ChatMessage> = Vec::new();
    let n = messages.len();
    let mut i: usize = 0;
    while i < n
        invariant
            n == messages@.len(),
            i <= n,
            copy@.len() == i,
            forall|j: int| 0 <= j < i ==> copy@[j]@ == messages@[j]@,
        decreases n - i,
    {
        copy.push(messages[i].clone());
        i += 1;
    }
    assert(turns_of(copy@) =~= turns_of(messages@));
    copy
}

/// The contents of `messages`, in order, with a line break between one and
/// the next.
pub fn join_contents(messages: &Vec<ChatMessage>) -> (text: String)
    ensures
        text@ == joined(turns_of(messages@)),
{
    let mut text = String::new();
    let n = messages.len();
    let mut i: usize = 0;
    while i < n
        invariant
            n == messages@.len(),
            i <= n,
            text@ == joined(turns_of(messages@).take(i as int)),
        decreases n - i,
    {
        let ghost turns = turns_of(messages@);
        proof {
            assert(turns.take(i + 1).drop_last() =~= turns.take(i as int));
            assert(turns.take(i + 1).last() == messages@[i as int]@);
            reveal_strlit("\n");
            assert("\n"@ =~= seq!['\n']);
        }
        if i > 0 {
            text.append("\n");
        }
        text.append(messages[i].content.as_str());
        i += 1;
    }
    assert(turns_of(messages@).take(n as int) =~= turns_of(messages@));
    text
}

} // verus!
