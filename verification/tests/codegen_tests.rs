use obf::codegen::{generate, preamble_text};
use obf::token::Token;
use obf::tokenizer::tokenize;

fn expected_preamble() -> String {
    String::from("#include <stdio.h>\nchar tape[30000];\nchar *ptr = tape;\nint main() {\n")
}

#[test]
fn preamble_declares_tape_cursor_and_function() {
    assert_eq!(preamble_text(), expected_preamble());
}

#[test]
fn empty_sequence_generates_preamble_and_closing_brace() {
    let out = generate(&vec![]);
    assert_eq!(out, expected_preamble() + "}\n");
}

#[test]
fn generation_is_total_and_nonempty() {
    let out = generate(&vec![]);
    assert!(!out.is_empty());
    assert!(out.len() >= expected_preamble().len() + 2);
}

#[test]
fn increment_increment_write_body() {
    let tokens = tokenize("++.");
    assert_eq!(tokens, vec![Token::Add, Token::Add, Token::Write]);
    let out = generate(&tokens);
    assert_eq!(out, expected_preamble() + "++*ptr;\n++*ptr;\nputchar(*ptr);\n}\n");
}

#[test]
fn clear_loop_body() {
    let tokens = tokenize("[-]");
    assert_eq!(tokens, vec![Token::BeginLoop, Token::Sub, Token::EndLoop]);
    let out = generate(&tokens);
    assert_eq!(out, expected_preamble() + "while (*ptr) {\n--*ptr;\n}\n}\n");
}

#[test]
fn comment_characters_emit_nothing() {
    let out = generate(&tokenize("hello+world"));
    assert_eq!(out, expected_preamble() + "++*ptr;\n}\n");
}

#[test]
fn every_instruction_has_its_fragment() {
    let tokens = vec![
        Token::Add,
        Token::Sub,
        Token::Right,
        Token::Left,
        Token::Read,
        Token::Write,
        Token::BeginLoop,
        Token::EndLoop,
    ];
    let out = generate(&tokens);
    let body = "++*ptr;\n--*ptr;\n++ptr;\n--ptr;\n*ptr=getchar();\nputchar(*ptr);\nwhile (*ptr) {\n}\n";
    assert_eq!(out, expected_preamble() + body + "}\n");
}

#[test]
fn unbalanced_open_brackets_stay_unbalanced() {
    let out = generate(&tokenize("[["));
    assert_eq!(out, expected_preamble() + "while (*ptr) {\nwhile (*ptr) {\n}\n");
    let opens = out.matches('{').count();
    let closes = out.matches('}').count();
    assert_eq!(opens, 3);
    assert_eq!(closes, 1);
}

#[test]
fn brace_counts_follow_loop_instructions() {
    let out = generate(&tokenize("[[-]>]<"));
    let opens = out.matches('{').count();
    let closes = out.matches('}').count();
    assert_eq!(opens, 1 + 2);
    assert_eq!(closes, 1 + 2);
}

#[test]
fn balanced_input_generates_balanced_text() {
    let out = generate(&tokenize("[->+<]"));
    assert_eq!(out.matches('{').count(), out.matches('}').count());
}

#[test]
fn generating_twice_yields_identical_bytes() {
    let tokens = tokenize("+[>,.<-]");
    let first = generate(&tokens);
    let second = generate(&tokens);
    assert_eq!(first.as_bytes(), second.as_bytes());
}
