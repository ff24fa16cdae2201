//! Fenced code blocks: how a reply marks the code it carries, and how the
//! code is taken out of it.

use crate::text::{
    chars_of, contains, find, find_in, first_at, lemma_find, lemma_find_first,
    lemma_occurs_in_subrange, lemma_trim_bounds, lemma_trim_idempotent, lemma_trim_padded,
    occurs_at, trim, trim_bounds,
};
use vstd::prelude::*;
use vstd::slice::slice_subrange;
use vstd::string::StrSliceExecFns;

verus! {

/// What opens a block of Rust code.
pub const OPEN_FENCE: &'static str = "```rust";

/// What closes a block of code.
pub const CLOSE_FENCE: &'static str = "```";

/// Why no code could be taken out of a text.
#[derive(Clone, Copy, Debug, PartialEq, Eq, Structural)]
pub enum ExtractionError {
    /// The text holds no opening fence.
    NoOpenFence,
    /// No closing fence follows the first opening fence.
    NoCloseFence,
}

/// The code of the first fenced block of `text`: what stands between the
/// leftmost opening fence and the first closing fence after it, without the
/// white space at either end.
pub open spec fn extracted(text: Seq<char>) -> Result<Seq<char>, ExtractionError> {
    match find(text, OPEN_FENCE@) {
        None => Err(ExtractionError::NoOpenFence),
        Some(i) => {
            let rest = text.skip(i + OPEN_FENCE@.len());
            match find(rest, CLOSE_FENCE@) {
                None => Err(ExtractionError::NoCloseFence),
                Some(j) => Ok(trim(rest.take(j))),
            }
        },
    }
}

/// Takes the code of the first fenced block out of `text`.
pub fn extract(text: &str) -> (code: Result<String, ExtractionError>)
    ensures
        match extracted(text@) {
            Ok(c) => code matches Ok(s) && s@ == c,
            Err(e) => code == Err::<String, ExtractionError>(e),
        },
{
    let chars = chars_of(text);
    let open = chars_of(OPEN_FENCE);
    let close = chars_of(CLOSE_FENCE);
    let n = chars.len();
    proof {
        lemma_find(text@, OPEN_FENCE@);
    }
    match find_in(chars.as_slice(), open.as_slice()) {
        None => Err(ExtractionError::NoOpenFence),
        Some(i) => {
            assert(occurs_at(text@, OPEN_FENCE@, i as int));
            let start = i + open.len();
            let rest = slice_subrange(chars.as_slice(), start, n);
            assert(rest@ == text@.skip(start as int));
            proof {
                lemma_find(rest@, CLOSE_FENCE@);
            }
            match find_in(rest, close.as_slice()) {
                None => Err(ExtractionError::NoCloseFence),
                Some(j) => {
                    assert(occurs_at(rest@, CLOSE_FENCE@, j as int));
                    let body = slice_subrange(rest, 0, j);
                    let (a, b) = trim_bounds(body);
                    assert(body@.subrange(a as int, b as int) == text@.subrange(
                        start + a,
                        start + b,
                    ));
                    let code = text.substring_char(start + a, start + b);
                    Ok(code.to_owned())
                },
            }
        },
    }
}

/// A block that holds `code`: the opening fence, the code on lines of its
/// own, and the closing fence.
pub open spec fn fenced(code: Seq<char>) -> Seq<char> {
    OPEN_FENCE@ + seq!['\n'] + code + seq!['\n'] + CLOSE_FENCE@
}

/// Puts `code` between fences.
pub fn fence(code: &str) -> (block: String)
    ensures
        block@ == fenced(code@),
{
    let mut block = String::from_str(OPEN_FENCE);
    block.append("\n");
    block.append(code);
    block.append("\n");
    block.append(CLOSE_FENCE);
    proof {
        reveal_strlit("\n");
        assert("\n"@ =~= seq!['\n']);
    }
    block
}

/// After a text that holds no opening fence, an opening fence is the leftmost.
proof fn lemma_open_fence_first(before: Seq<char>, tail: Seq<char>)
    requires
        !contains(before, OPEN_FENCE@),
    ensures
        first_at(before + OPEN_FENCE@ + tail, OPEN_FENCE@, before.len() as int),
{
    reveal_strlit("```rust");
    let open = OPEN_FENCE@;
    let text = before + open + tail;
    let n = before.len() as int;
    assert(text.subrange(n, n + open.len()) =~= open);
    assert forall|j: int| 0 <= j < n implies !occurs_at(text, open, j) by {
        if occurs_at(text, open, j) {
            let w = text.subrange(j, j + 7);
            if j + 7 <= n {
                assert(before.subrange(j, j + 7) =~= w);
                assert(occurs_at(before, open, j));
            } else {
                // The window reaches into the fence that follows `before`.
                assert(text[n] == open[0] && text[n + 1] == open[1] && text[n + 2] == open[2]);
                assert(w[n - j] == text[n]);
                assert(w[3] == text[j + 3]);
            }
        }
    }
}

/// In a line break, code that holds no fence, a line break and a closing
/// fence, that fence is the leftmost.
proof fn lemma_close_fence_first(code: Seq<char>, after: Seq<char>)
    requires
        !contains(code, CLOSE_FENCE@),
    ensures
        first_at(
            seq!['\n'] + code + seq!['\n'] + CLOSE_FENCE@ + after,
            CLOSE_FENCE@,
            code.len() as int + 2,
        ),
{
    reveal_strlit("```");
    let close = CLOSE_FENCE@;
    let rest = seq!['\n'] + code + seq!['\n'] + close + after;
    let n = code.len() as int;
    assert(rest.subrange(n + 2, n + 2 + close.len()) =~= close);
    assert(rest[0] == '\n');
    assert(rest[n + 1] == '\n');
    assert forall|j: int| 0 <= j < n + 2 implies !occurs_at(rest, close, j) by {
        if occurs_at(rest, close, j) {
            let w = rest.subrange(j, j + 3);
            assert(w[0] == rest[j] && w[1] == rest[j + 1] && w[2] == rest[j + 2]);
            assert(1 <= j && j + 3 <= n + 1);
            assert(code.subrange(j - 1, j + 2) =~= w);
            assert(occurs_at(code, close, j - 1));
        }
    }
}

/// From a text in which a fenced block follows prose without an opening
/// fence, `extracted` takes the code of that block, trimmed: whatever the
/// prose before and after it, and whatever white space the code holds.
pub proof fn lemma_extract_block(before: Seq<char>, code: Seq<char>, after: Seq<char>)
    requires
        !contains(before, OPEN_FENCE@),
        !contains(code, CLOSE_FENCE@),
    ensures
        extracted(before + fenced(code) + after) == Ok::<Seq<char>, ExtractionError>(trim(code)),
{
    let text = before + fenced(code) + after;
    let tail = seq!['\n'] + code + seq!['\n'] + CLOSE_FENCE@ + after;
    assert(text =~= before + OPEN_FENCE@ + tail);
    lemma_open_fence_first(before, tail);
    lemma_find_first(text, OPEN_FENCE@, before.len() as int);
    let rest = text.skip(before.len() as int + OPEN_FENCE@.len());
    assert(rest =~= tail);
    lemma_close_fence_first(code, after);
    lemma_find_first(rest, CLOSE_FENCE@, code.len() as int + 2);
    let body = rest.take(code.len() as int + 2);
    assert(body =~= seq!['\n'] + code + seq!['\n']);
    lemma_trim_padded(seq!['\n'], code, seq!['\n']);
}

/// Of two fenced blocks in a text, `extracted` takes the code of the first.
pub proof fn lemma_extract_first_block(
    before: Seq<char>,
    first: Seq<char>,
    between: Seq<char>,
    second: Seq<char>,
    after: Seq<char>,
)
    requires
        !contains(before, OPEN_FENCE@),
        !contains(first, CLOSE_FENCE@),
    ensures
        extracted(before + fenced(first) + between + fenced(second) + after) == Ok::<
            Seq<char>,
            ExtractionError,
        >(trim(first)),
{
    let text = before + fenced(first) + between + fenced(second) + after;
    assert(text =~= before + fenced(first) + (between + fenced(second) + after));
    lemma_extract_block(before, first, between + fenced(second) + after);
}

/// What `extracted` takes out of a text holds no closing fence.
pub proof fn lemma_extracted_holds_no_fence(text: Seq<char>)
    requires
        extracted(text) is Ok,
    ensures
        !contains(extracted(text)->Ok_0, CLOSE_FENCE@),
{
    lemma_find(text, OPEN_FENCE@);
    let i = find(text, OPEN_FENCE@)->Some_0;
    let rest = text.skip(i + OPEN_FENCE@.len());
    lemma_find(rest, CLOSE_FENCE@);
    let j = find(rest, CLOSE_FENCE@)->Some_0;
    let body = rest.take(j);
    let (a, b) = lemma_trim_bounds(body);
    let code = trim(body);
    assert forall|k: int| !occurs_at(code, CLOSE_FENCE@, k) by {
        if occurs_at(code, CLOSE_FENCE@, k) {
            lemma_occurs_in_subrange(body, a, b, CLOSE_FENCE@, k);
            lemma_occurs_in_subrange(rest, 0, j, CLOSE_FENCE@, a + k);
            assert(a + k + CLOSE_FENCE@.len() <= j);
            reveal_strlit("```");
        }
    }
}

/// Code that `extracted` took out of a text, fenced again, is extracted
/// again as the same code.
pub proof fn lemma_extract_round_trip(text: Seq<char>)
    requires
        extracted(text) is Ok,
    ensures
        extracted(fenced(extracted(text)->Ok_0)) == extracted(text),
{
    let code = extracted(text)->Ok_0;
    lemma_extracted_holds_no_fence(text);
    let none = Seq::<char>::empty();
    assert(!contains(none, OPEN_FENCE@)) by {
        reveal_strlit("```rust");
    }
    lemma_extract_block(none, code, none);
    assert(none + fenced(code) + none =~= fenced(code));
    assert(trim(code) == code) by {
        let i = find(text, OPEN_FENCE@)->Some_0;
        let rest = text.skip(i + OPEN_FENCE@.len());
        let j = find(rest, CLOSE_FENCE@)->Some_0;
        lemma_trim_idempotent(rest.take(j));
    }
}

/// When `extracted` fails: with `NoOpenFence` exactly where the text holds no
/// opening fence, and with `NoCloseFence` exactly where it holds one and no
/// closing fence follows the leftmost.
pub proof fn lemma_extract_errors(text: Seq<char>)
    ensures
        extracted(text) == Err::<Seq<char>, ExtractionError>(ExtractionError::NoOpenFence)
            <==> !contains(text, OPEN_FENCE@),
        extracted(text) == Err::<Seq<char>, ExtractionError>(ExtractionError::NoCloseFence)
            <==> exists|i: int|
            first_at(text, OPEN_FENCE@, i) && !contains(
                text.skip(i + OPEN_FENCE@.len()),
                CLOSE_FENCE@,
            ),
{
    lemma_find(text, OPEN_FENCE@);
    match find(text, OPEN_FENCE@) {
        None => {
            assert forall|i: int| !first_at(text, OPEN_FENCE@, i) by {
                if first_at(text, OPEN_FENCE@, i) {
                    assert(occurs_at(text, OPEN_FENCE@, i));
                }
            }
        },
        Some(i) => {
            let rest = text.skip(i + OPEN_FENCE@.len());
            lemma_find(rest, CLOSE_FENCE@);
            assert forall|k: int| first_at(text, OPEN_FENCE@, k) implies k == i by {
                lemma_find_first(text, OPEN_FENCE@, k);
            }
            assert(occurs_at(text, OPEN_FENCE@, i));
        },
    }
}

} // verus!
