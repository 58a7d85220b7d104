use obf::token::Token;
use obf::tokenizer::tokenize;

#[test]
fn empty_input_yields_no_instructions() {
    assert_eq!(tokenize(""), vec![]);
}

#[test]
fn all_comment_input_yields_no_instructions() {
    assert_eq!(tokenize("a quiet comment line\n"), vec![]);
    assert_eq!(tokenize("no symbols here at all"), vec![]);
}

#[test]
fn each_symbol_maps_to_its_instruction() {
    assert_eq!(tokenize("+"), vec![Token::Add]);
    assert_eq!(tokenize("-"), vec![Token::Sub]);
    assert_eq!(tokenize(">"), vec![Token::Right]);
    assert_eq!(tokenize("<"), vec![Token::Left]);
    assert_eq!(tokenize(","), vec![Token::Read]);
    assert_eq!(tokenize("."), vec![Token::Write]);
    assert_eq!(tokenize("["), vec![Token::BeginLoop]);
    assert_eq!(tokenize("]"), vec![Token::EndLoop]);
}

#[test]
fn increment_increment_write() {
    assert_eq!(tokenize("++."), vec![Token::Add, Token::Add, Token::Write]);
}

#[test]
fn letters_are_ignored() {
    assert_eq!(tokenize("hello+world"), vec![Token::Add]);
}

#[test]
fn output_length_counts_recognized_symbols() {
    let input = "ab+cd-ef[gh]ij.kl,mn>op<qr";
    let count = input.chars().filter(|c| "+-><,.[]".contains(*c)).count();
    assert_eq!(tokenize(input).len(), count);
    assert_eq!(tokenize(input).len(), 8);
}

#[test]
fn order_of_symbols_is_preserved() {
    assert_eq!(
        tokenize(" [ x - y ] z . "),
        vec![Token::BeginLoop, Token::Sub, Token::EndLoop, Token::Write]
    );
}

#[test]
fn unbalanced_brackets_pass_through() {
    assert_eq!(tokenize("[["), vec![Token::BeginLoop, Token::BeginLoop]);
    assert_eq!(tokenize("]]]"), vec![Token::EndLoop, Token::EndLoop, Token::EndLoop]);
}

#[test]
fn whitespace_and_digits_are_comments() {
    assert_eq!(tokenize("1 2\t3\n4+5"), vec![Token::Add]);
}
