use vstd::prelude::*;
use vstd::string::StrSliceExecFns;

use crate::token::{instruction_of, is_instruction_char, spec_token_of, token_of_char, Token};

verus! {

/// The instruction sequence a character sequence denotes: each recognized
/// symbol contributes its instruction, in input order, and every other
/// character contributes nothing.
pub open spec fn tokens_of(s: Seq<char>) -> Seq<Token>
    decreases s.len(),
{
    if s.len() == 0 {
        Seq::empty()
    } else {
        tokens_of(s.drop_last()) + match spec_token_of(s.last()) {
            Some(t) => seq![t],
            None => Seq::<Token>::empty(),
        }
    }
}

/// The recognized symbols of a character sequence, in order.
pub open spec fn recognized_of(s: Seq<char>) -> Seq<char> {
    s.filter(|c: char| is_instruction_char(c))
}

/// The recognized symbols of a character sequence, each mapped to its
/// instruction, in order.
pub open spec fn instructions_of_chars(s: Seq<char>) -> Seq<Token> {
    recognized_of(s).map_values(|c: char| instruction_of(c))
}

/// Scans the input character by character and keeps the instructions the
/// recognized symbols denote; all other characters are silently discarded.
pub fn tokenize(input: &str) -> (tokens: Vec<Token>)
    ensures
        tokens@ == tokens_of(input@),
{
    let n = input.unicode_len();
    let mut tokens: Vec<Token> = Vec::new();
    let mut i: usize = 0;
    while i < n
        invariant
            i <= n,
            n == input@.len(),
            tokens@ == tokens_of(input@.subrange(0, i as int)),
        decreases n - i,
    {
        let c = input.get_char(i);
        proof {
            let pre = input@.subrange(0, i + 1);
            assert(pre.drop_last() =~= input@.subrange(0, i as int));
            assert(pre.last() == c);
        }
        match token_of_char(c) {
            Some(t) => {
                tokens.push(t);
                proof {
                    assert(tokens@ =~= tokens_of(input@.subrange(0, i + 1)));
                }
            },
            None => {
                proof {
                    assert(tokens@ =~= tokens_of(input@.subrange(0, i + 1)));
                }
            },
        }
        i = i + 1;
    }
    proof {
        assert(input@.subrange(0, n as int) =~= input@);
    }
    tokens
}

/// Order preservation: the tokenizer's output is exactly the sequence of
/// recognized symbols of the input, in input order, each mapped to its
/// instruction.
pub proof fn lemma_tokenize_order(s: Seq<char>)
    ensures
        tokens_of(s) == instructions_of_chars(s),
    decreases s.len(),
{
    reveal(Seq::filter);
    if s.len() == 0 {
        assert(tokens_of(s) =~= instructions_of_chars(s));
    } else {
        let d = s.drop_last();
        let x = s.last();
        lemma_tokenize_order(d);
        if is_instruction_char(x) {
            assert(recognized_of(s) == recognized_of(d).push(x));
            assert(instructions_of_chars(s) =~= instructions_of_chars(d) + seq![
                instruction_of(x),
            ]);
            assert(tokens_of(s) =~= instructions_of_chars(s));
        } else {
            assert(recognized_of(s) == recognized_of(d));
            assert(tokens_of(s) =~= instructions_of_chars(s));
        }
    }
}

/// Filtering: the tokenizer yields exactly one instruction per recognized
/// symbol of the input, so the output length is the count of such symbols.
pub proof fn lemma_tokenize_count(s: Seq<char>)
    ensures
        tokens_of(s).len() == recognized_of(s).len(),
{
    lemma_tokenize_order(s);
}

} // verus!
