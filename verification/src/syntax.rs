//! Whether fenced code is of the syntax that was asked for.

use crate::error::{outcome, Error, ErrorView, SyntaxError};
use vstd::prelude::*;

verus! {

/// What a piece of generated test code is.
#[derive(Clone, Copy, Debug, PartialEq, Eq, Structural)]
pub enum Shape {
    /// One function.
    Function,
    /// One module.
    Module,
}

/// Calls `syn::parse_str` at `syn::ItemFn`, and says whether it accepted
/// `code`, that is whether all of `code` reads as one function, attributes
/// included. Nothing is claimed of the answer: the lexer behind `syn` is the
/// compiler's own where a procedural macro runs, and a portable one
/// elsewhere.
#[verifier::external_body]
fn parses_as_function(code: &str) -> (accepted: bool) {
    syn::parse_str::<syn::ItemFn>(code).is_ok()
}

/// Calls `syn::parse_str` at `syn::ItemMod`, and says whether it accepted
/// `code`, that is whether all of `code` reads as one module. Nothing is
/// claimed of the answer.
#[verifier::external_body]
fn parses_as_module(code: &str) -> (accepted: bool) {
    syn::parse_str::<syn::ItemMod>(code).is_ok()
}

/// Calls `syn::parse_str` at `proc_macro2::TokenStream`, and says whether it
/// accepted `code`, that is whether `code` is a sequence of Rust tokens with
/// balanced brackets. Nothing is claimed of the answer.
#[verifier::external_body]
fn parses_as_tokens(code: &str) -> (accepted: bool) {
    syn::parse_str::<proc_macro2::TokenStream>(code).is_ok()
}

/// What code is that reads as a function (`function`) or as a module
/// (`module`): a function where it reads as one, else a module where it reads
/// as one.
pub open spec fn shape_of(function: bool, module: bool) -> Option<Shape> {
    if function {
        Some(Shape::Function)
    } else if module {
        Some(Shape::Module)
    } else {
        None
    }
}

/// The shape of code of which it is known whether it reads as a function and
/// whether it reads as a module.
pub fn shape(function: bool, module: bool) -> (found: Option<Shape>)
    ensures
        found == shape_of(function, module),
{
    if function {
        Some(Shape::Function)
    } else if module {
        Some(Shape::Module)
    } else {
        None
    }
}

/// The shape of `code` as a test case, if it has one: a function first, a
/// module where it is no function.
pub fn test_case_shape(code: &str) -> (found: Option<Shape>) {
    if parses_as_function(code) {
        shape(true, false)
    } else {
        shape(false, parses_as_module(code))
    }
}

/// What becomes of fenced code once it is known whether its syntax is
/// `accepted`: the code itself, or the error `otherwise` with the code.
pub open spec fn checked_as(code: Seq<char>, accepted: bool, otherwise: SyntaxError) -> Result<
    Seq<char>,
    ErrorView,
> {
    if accepted {
        Ok(code)
    } else {
        Err(ErrorView::Syntax(otherwise, code))
    }
}

/// Hands `code` on where its syntax is `accepted`, and fails with
/// `otherwise` where it is not.
pub fn checked(code: String, accepted: bool, otherwise: SyntaxError) -> (result: Result<
    String,
    Error,
>)
    ensures
        outcome(result) == checked_as(code@, accepted, otherwise),
{
    if accepted {
        Ok(code)
    } else {
        Err(Error::Syntax(otherwise, code))
    }
}

/// Hands `code` on where it is a sequence of Rust tokens, and fails with
/// `SyntaxError::NotCode` where it is not.
pub fn check_code(code: String) -> (result: Result<String, Error>)
    ensures
        outcome(result) == checked_as(code@, true, SyntaxError::NotCode)
            || outcome(result) == checked_as(code@, false, SyntaxError::NotCode),
{
    let accepted = parses_as_tokens(code.as_str());
    checked(code, accepted, SyntaxError::NotCode)
}

} // verus!
