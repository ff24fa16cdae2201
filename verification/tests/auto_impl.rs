use gpt_macro::auto_impl::AutoImpl;
use gpt_macro::step::Phase;
use gpt_macro::chatgpt::{ChatChoice, ChatCompletion, ChatGPT, ChatReply, ChatUsage};
use gpt_macro::conversation::Role;
use gpt_macro::error::{CompletionError, Error, SyntaxError};
use gpt_macro::fence::ExtractionError;

const AUTO_IMPL_STUB: &str = "fn fizzbuzz(n: u32) -> String {}";
const AUTO_IMPL_DOC: &str = "Return fizz if the number is divisible by 3.";

fn auto_impl_response(contents: &[&str]) -> ChatCompletion {
    let mut choices = Vec::new();
    for (index, content) in contents.iter().enumerate() {
        choices.push(ChatChoice {
            index: index as u32,
            message: ChatReply { role: Role::Assistant, content: Some(content.to_string()) },
            finish_reason: "stop".to_string(),
        });
    }
    ChatCompletion {
        id: "chatcmpl-1".to_string(),
        object: "chat.completion".to_string(),
        created: 1_700_000_000,
        choices,
        usage: ChatUsage { prompt_tokens: 1, completion_tokens: 2, total_tokens: 3 },
    }
}

fn auto_impl_started() -> AutoImpl<ChatGPT> {
    let mut work = AutoImpl::<ChatGPT>::new(AUTO_IMPL_STUB.to_string(), AUTO_IMPL_DOC.to_string());
    work.completion();
    work
}

#[test]
fn implementation_asks_in_three_turns() {
    let mut work = AutoImpl::<ChatGPT>::new(AUTO_IMPL_STUB.to_string(), AUTO_IMPL_DOC.to_string());
    assert_eq!(work.phase(), Phase::Created);
    let request = work.completion();
    assert_eq!(work.phase(), Phase::Awaiting);
    let turns: Vec<(Role, &str)> =
        request.messages.iter().map(|m| (m.role, m.content.as_str())).collect();
    assert_eq!(
        turns,
        vec![
            (Role::System, "You are a Rust expert who can implement the given function."),
            (
                Role::User,
                "Read this incomplete Rust code:\n```rust\nfn fizzbuzz(n: u32) -> String {}\n```"
            ),
            (
                Role::User,
                "Complete the Rust code that follows this instruction: 'Return fizz if the number is divisible by 3.'. Your response must start with code block '```rust'."
            ),
        ]
    );
}

#[test]
fn implementation_returns_the_fenced_code() {
    let mut work = auto_impl_started();
    let reply = "```rust\nfn fizzbuzz(n: u32) -> String { n.to_string() }\n\n#[test]\nfn t() {}\n```\nDone.";
    let code = work.reply(auto_impl_response(&[reply])).unwrap();
    assert_eq!(code, "fn fizzbuzz(n: u32) -> String { n.to_string() }\n\n#[test]\nfn t() {}");
    assert_eq!(work.phase(), Phase::Done);
}

#[test]
fn implementation_fails_without_a_fence() {
    let mut work = auto_impl_started();
    match work.reply(auto_impl_response(&["Sorry."])) {
        Err(Error::Extraction(ExtractionError::NoOpenFence, reply)) => assert_eq!(reply, "Sorry."),
        other => panic!("{:?}", other),
    }
    assert_eq!(work.phase(), Phase::Failed);
}

#[test]
fn implementation_fails_on_code_that_does_not_lex() {
    let mut work = auto_impl_started();
    match work.reply(auto_impl_response(&["```rust\nfn fizzbuzz(n: u32) -> String {\n```"])) {
        Err(Error::Syntax(SyntaxError::NotCode, code)) => {
            assert_eq!(code, "fn fizzbuzz(n: u32) -> String {")
        }
        other => panic!("{:?}", other),
    }
    assert_eq!(work.phase(), Phase::Failed);
}

#[test]
fn implementation_fails_without_a_choice() {
    let mut work = auto_impl_started();
    assert!(matches!(
        work.reply(auto_impl_response(&[])),
        Err(Error::Completion(CompletionError::NoChoice))
    ));
    assert_eq!(work.phase(), Phase::Failed);
}

#[test]
fn implementation_parse_str_accepts_any_tokens() {
    let work = auto_impl_started();
    assert_eq!(work.parse_str("a b c ( d )".to_string()).unwrap(), "a b c ( d )");
    assert!(matches!(
        work.parse_str("( d".to_string()),
        Err(Error::Syntax(SyntaxError::NotCode, _))
    ));
}

#[test]
fn implementation_fails_on_a_candidate_without_content() {
    let mut work = auto_impl_started();
    let mut response = auto_impl_response(&["```rust\nfn a() {}\n```"]);
    response.choices[0].message.content = None;
    assert_eq!(work.reply(response), Err(Error::Completion(CompletionError::NoContent)));
    assert_eq!(work.phase(), Phase::Failed);
}
