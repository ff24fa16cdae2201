//! The words of the prompts.

use crate::fence::{fence, fenced};
use vstd::prelude::*;
use vstd::string::StringExecFns;

verus! {

/// How a conversation that asks for tests is framed.
pub const TEST_SYSTEM_PROMPT: &'static str =
    "You are a Rust expert who can generate perfect tests for the given function.";

/// How a conversation that asks for an implementation is framed.
pub const IMPL_SYSTEM_PROMPT: &'static str =
    "You are a Rust expert who can implement the given function.";

/// What asks for tests where none is asked for by name.
pub const ANY_TEST_INSTRUCTION: &'static str =
    "Write a test case for the function as much as possible in Markdown code snippet style. Your response must start with code block '```rust'.";

/// What shows the function under test.
pub open spec fn read_function(source: Seq<char>) -> Seq<char> {
    "Read this Rust function:\n"@ + fenced(source)
}

/// What shows the code to complete.
pub open spec fn read_incomplete(source: Seq<char>) -> Seq<char> {
    "Read this incomplete Rust code:\n"@ + fenced(source)
}

/// What asks for the test named `name`.
pub open spec fn named_test_instruction(name: Seq<char>) -> Seq<char> {
    "Write a test case `"@ + name
        + "` for the function in Markdown code snippet style. Your response must start with code block '```rust'."@
}

/// What asks for the code that `doc` describes.
pub open spec fn implement_instruction(doc: Seq<char>) -> Seq<char> {
    "Complete the Rust code that follows this instruction: '"@ + doc
        + "'. Your response must start with code block '```rust'."@
}

/// The turn that shows the function under test.
pub fn read_function_prompt(source: &str) -> (prompt: String)
    ensures
        prompt@ == read_function(source@),
{
    let block = fence(source);
    String::from_str("Read this Rust function:\n").concat(block.as_str())
}

/// The turn that shows the code to complete.
pub fn read_incomplete_prompt(source: &str) -> (prompt: String)
    ensures
        prompt@ == read_incomplete(source@),
{
    let block = fence(source);
    String::from_str("Read this incomplete Rust code:\n").concat(block.as_str())
}

/// The turn that asks for the test named `name`.
pub fn named_test_prompt(name: &str) -> (prompt: String)
    ensures
        prompt@ == named_test_instruction(name@),
{
    String::from_str("Write a test case `").concat(name).concat(
        "` for the function in Markdown code snippet style. Your response must start with code block '```rust'.",
    )
}

/// The turn that asks for the code that `doc` describes.
pub fn implement_prompt(doc: &str) -> (prompt: String)
    ensures
        prompt@ == implement_instruction(doc@),
{
    String::from_str("Complete the Rust code that follows this instruction: '").concat(doc).concat(
        "'. Your response must start with code block '```rust'.",
    )
}

} // verus!
