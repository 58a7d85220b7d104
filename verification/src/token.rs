use vstd::prelude::*;

verus! {

/// One operation of the tape machine, recognized from a single source symbol.
///
/// The set is closed: every character that is none of the eight symbols
/// denotes no instruction at all.
#[derive(Debug, PartialEq, Eq, Structural, Copy, Clone)]
pub enum Token {
    /// `+`: increment the value at the current cell.
    Add,
    /// `-`: decrement the value at the current cell.
    Sub,
    /// `>`: advance the tape pointer one cell to the right.
    Right,
    /// `<`: retreat the tape pointer one cell to the left.
    Left,
    /// `,`: read one input character into the current cell.
    Read,
    /// `.`: write the current cell's value as a character.
    Write,
    /// `[`: open a loop conditioned on the current cell being nonzero.
    BeginLoop,
    /// `]`: close the innermost open loop.
    EndLoop,
}

/// The instruction, if any, that a single source character denotes.
pub open spec fn spec_token_of(c: char) -> Option<Token> {
    if c == '+' {
        Some(Token::Add)
    } else if c == '-' {
        Some(Token::Sub)
    } else if c == '>' {
        Some(Token::Right)
    } else if c == '<' {
        Some(Token::Left)
    } else if c == ',' {
        Some(Token::Read)
    } else if c == '.' {
        Some(Token::Write)
    } else if c == '[' {
        Some(Token::BeginLoop)
    } else if c == ']' {
        Some(Token::EndLoop)
    } else {
        None
    }
}

/// Whether a character is one of the eight recognized instruction symbols.
pub open spec fn is_instruction_char(c: char) -> bool {
    spec_token_of(c) is Some
}

/// The instruction a recognized character denotes.
pub open spec fn instruction_of(c: char) -> Token
    recommends
        is_instruction_char(c),
{
    spec_token_of(c)->0
}

/// Recognizes a single character, exactly as `spec_token_of` describes.
pub fn token_of_char(c: char) -> (t: Option<Token>)
    ensures
        t == spec_token_of(c),
{
    match c {
        '+' => Some(Token::Add),
        '-' => Some(Token::Sub),
        '>' => Some(Token::Right),
        '<' => Some(Token::Left),
        ',' => Some(Token::Read),
        '.' => Some(Token::Write),
        '[' => Some(Token::BeginLoop),
        ']' => Some(Token::EndLoop),
        _ => None,
    }
}

} // verus!
