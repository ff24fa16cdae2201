//! Conversational code completion: prompts, replies and the code fenced in them.

pub mod auto_impl;
pub mod chatgpt;
pub mod completion;
pub mod conversation;
pub mod error;
pub mod fence;
pub mod prompt;
pub mod step;
pub mod syntax;
pub mod text;
pub mod text_completion;
