use gpt_macro::fence::{extract, fence, ExtractionError, CLOSE_FENCE, OPEN_FENCE};

#[test]
fn extract_takes_the_fenced_code() {
    let reply = "Here is the test:\n```rust\n#[test]\nfn test_a() {}\n```\nGood luck!";
    assert_eq!(extract(reply), Ok("#[test]\nfn test_a() {}".to_string()));
}

#[test]
fn extract_trims_the_code() {
    let reply = "```rust\n\n \t fn f() {\n    1\n}\n\n  \n```";
    assert_eq!(extract(reply), Ok("fn f() {\n    1\n}".to_string()));
}

#[test]
fn extract_keeps_white_space_inside_the_code() {
    let reply = "prose\n```rust\nfn f() {\n\n\n    let x = 1;\t\n}\n```";
    assert_eq!(extract(reply), Ok("fn f() {\n\n\n    let x = 1;\t\n}".to_string()));
}

#[test]
fn extract_works_without_line_breaks_at_the_fences() {
    assert_eq!(extract("a```rustfn f() {}```b"), Ok("fn f() {}".to_string()));
}

#[test]
fn extract_of_an_empty_block_is_empty() {
    assert_eq!(extract("```rust\n```"), Ok(String::new()));
    assert_eq!(extract("```rust```"), Ok(String::new()));
    assert_eq!(extract("```rust \n\t ```"), Ok(String::new()));
}

#[test]
fn extract_reports_a_missing_opening_fence() {
    assert_eq!(extract(""), Err(ExtractionError::NoOpenFence));
    assert_eq!(extract("no code here"), Err(ExtractionError::NoOpenFence));
    assert_eq!(extract("```\nfn f() {}\n```"), Err(ExtractionError::NoOpenFence));
    assert_eq!(extract("```python\nprint(1)\n```"), Err(ExtractionError::NoOpenFence));
    assert_eq!(extract("``rust\nfn f() {}\n```"), Err(ExtractionError::NoOpenFence));
}

#[test]
fn extract_reports_a_missing_closing_fence() {
    assert_eq!(extract("```rust\nfn f() {}\n"), Err(ExtractionError::NoCloseFence));
    assert_eq!(extract("```rust"), Err(ExtractionError::NoCloseFence));
    assert_eq!(extract("``` ```rust fn f() {} ``"), Err(ExtractionError::NoCloseFence));
}

#[test]
fn extract_takes_the_first_of_two_blocks() {
    let reply = "one:\n```rust\nfn a() {}\n```\ntwo:\n```rust\nfn b() {}\n```\n";
    assert_eq!(extract(reply), Ok("fn a() {}".to_string()));
}

#[test]
fn extract_ends_at_the_next_opening_fence_too() {
    assert_eq!(extract("```rust\nfn a() {}\n```rust\nfn b() {}\n```"), Ok("fn a() {}".to_string()));
}

#[test]
fn extract_skips_a_block_in_another_language() {
    let reply = "```\nplain\n```\n```rust\nfn a() {}\n```";
    assert_eq!(extract(reply), Ok("fn a() {}".to_string()));
}

#[test]
fn extract_finds_a_fence_after_stray_backticks() {
    assert_eq!(extract("x````rust\nfn a() {}\n```"), Ok("fn a() {}".to_string()));
    assert_eq!(extract("`` ```rust\nlet s = `x`;\n```"), Ok("let s = `x`;".to_string()));
}

#[test]
fn extract_handles_text_beyond_ascii() {
    let reply = "Voil\u{e0} \u{1F600}:\n```rust\n\u{a0}let s = \"\u{e9}t\u{e9}\";\u{2003}\n```\nfin";
    assert_eq!(extract(reply), Ok("let s = \"\u{e9}t\u{e9}\";".to_string()));
}

#[test]
fn extract_agrees_with_split_and_trim() {
    let replies = [
        "```rust\nfn a() {}\n```",
        "text ```rust  fn a() {}  ``` more ```rust fn b() {} ```",
        "\n\n```rust\n\n\n```\n",
        "a```rust`b`c```d",
    ];
    for reply in replies {
        let expected = reply.split("```rust").nth(1).unwrap().split("```").next().unwrap().trim();
        assert_eq!(extract(reply), Ok(expected.to_string()));
    }
}

#[test]
fn fence_wraps_code() {
    assert_eq!(fence("fn f() {}"), "```rust\nfn f() {}\n```");
    assert_eq!(fence(""), "```rust\n\n```");
    assert_eq!(OPEN_FENCE, "```rust");
    assert_eq!(CLOSE_FENCE, "```");
}

#[test]
fn extract_of_a_fenced_extract_is_the_same() {
    let replies = [
        "Sure.\n```rust\n  fn a() { let s = \"`\"; }\n\n```\nDone.",
        "```rust```",
        "```rust\nx`\n```",
        "```rust `` ```",
    ];
    for reply in replies {
        let code = extract(reply).unwrap();
        assert_eq!(extract(&fence(&code)), Ok(code));
    }
}

#[test]
fn extract_of_fenced_code_in_prose_is_the_trimmed_code() {
    let codes = ["fn a() {}", "  fn a() {}\n\n", "", " \n ", "let t = `a` + ``;"];
    let befores = ["", "Here you go:\n", "``", "```", "``` rust ```ru"];
    let afters = ["", "\nBye", "```rust\nfn other() {}\n```"];
    for code in codes {
        for before in befores {
            for after in afters {
                let reply = format!("{}{}{}", before, fence(code), after);
                assert_eq!(extract(&reply), Ok(code.trim().to_string()));
            }
        }
    }
}
