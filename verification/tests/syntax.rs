use gpt_macro::error::{Error, SyntaxError};
use gpt_macro::syntax::{check_code, checked, shape, test_case_shape, Shape};

#[test]
fn shape_prefers_a_function() {
    assert_eq!(shape(true, false), Some(Shape::Function));
    assert_eq!(shape(true, true), Some(Shape::Function));
    assert_eq!(shape(false, true), Some(Shape::Module));
    assert_eq!(shape(false, false), None);
}

#[test]
fn a_function_is_a_test_case() {
    assert_eq!(test_case_shape("fn test_a() { assert_eq!(1 + 1, 2); }"), Some(Shape::Function));
    assert_eq!(
        test_case_shape("#[test]\n#[should_panic]\nfn test_div_by_zero() {\n    div_u32(1, 0);\n}"),
        Some(Shape::Function)
    );
    assert_eq!(test_case_shape("pub(crate) async fn f<T: Clone>(x: T) -> T { x }"), Some(Shape::Function));
}

#[test]
fn a_module_is_a_test_case() {
    assert_eq!(
        test_case_shape("#[cfg(test)]\nmod tests {\n    use super::*;\n\n    #[test]\n    fn a() {}\n}"),
        Some(Shape::Module)
    );
    assert_eq!(test_case_shape("mod tests;"), Some(Shape::Module));
}

#[test]
fn other_code_is_no_test_case() {
    assert_eq!(test_case_shape(""), None);
    assert_eq!(test_case_shape("let x = 1;"), None);
    assert_eq!(test_case_shape("fn a() {}\nfn b() {}"), None);
    assert_eq!(test_case_shape("use super::*;\n#[test]\nfn a() {}"), None);
    assert_eq!(test_case_shape("struct S;"), None);
    assert_eq!(test_case_shape("fn a() {"), None);
    assert_eq!(test_case_shape("fn a() }"), None);
    assert_eq!(test_case_shape("mod m { fn }"), None);
}

#[test]
fn checked_hands_on_accepted_code() {
    assert_eq!(checked("x".to_string(), true, SyntaxError::NotCode).unwrap(), "x");
    match checked("x".to_string(), false, SyntaxError::NotTestCase) {
        Err(Error::Syntax(SyntaxError::NotTestCase, code)) => assert_eq!(code, "x"),
        other => panic!("{:?}", other),
    }
}

#[test]
fn check_code_accepts_balanced_tokens() {
    assert_eq!(check_code("fn a() {} fn b() {}".to_string()).unwrap(), "fn a() {} fn b() {}");
    assert_eq!(check_code("".to_string()).unwrap(), "");
    assert_eq!(check_code("let x = [1, 2 ; + )(".to_string()).is_ok(), false);
}

#[test]
fn check_code_refuses_what_does_not_lex() {
    for code in ["fn a() {", "}", "let s = \"open;", "'"] {
        match check_code(code.to_string()) {
            Err(Error::Syntax(SyntaxError::NotCode, refused)) => assert_eq!(refused, code),
            other => panic!("{:?}", other),
        }
    }
}

#[test]
fn literals_of_every_kind_are_read() {
    let body = "fn f() { c\"x\"; cr#\"y\"#; b\"z\"; br\"w\"; b'a'; 'b'; \"s\"; r\"t\"; 1u8; 0x1F; 1.5e3; 2.0f32; true; }";
    assert_eq!(test_case_shape(body), Some(Shape::Function));
    let module = format!("mod m {{ {} }}", body);
    assert_eq!(test_case_shape(&module), Some(Shape::Module));
    assert_eq!(check_code(body.to_string()).unwrap(), body);
}

#[test]
fn odd_literals_do_not_stop_the_reading() {
    let cases = [
        ("fn f() { (/*ERROR*/) }", Some(Shape::Function), true),
        ("mod m { fn f() { c\"x\" } }", Some(Shape::Module), true),
        ("fn f() { x.0.1.2; x.1e3; x.0x1; }", None, true),
        ("fn f() { c\"\\0\"; }", None, false),
        ("fn f() { 1__; 0b2; 1e; 'ab'; 1.0.0 }", None, false),
    ];
    for (code, shape, lexes) in cases {
        assert_eq!(test_case_shape(code), shape, "{}", code);
        assert_eq!(check_code(code.to_string()).is_ok(), lexes, "{}", code);
    }
}
