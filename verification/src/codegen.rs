use vstd::prelude::*;
use vstd::string::StringExecFns;

use crate::token::Token;

verus! {

/// The fixed runtime preamble of every generated program: it declares the
/// tape, a cursor at the tape's first cell, and opens the function body in
/// which every emitted statement is nested.
pub open spec fn preamble() -> Seq<char> {
    "#include <stdio.h>\n"@ + "char tape[30000];\n"@ + "char *ptr = tape;\n"@ + "int main() {\n"@
}

/// The text fragment emitted for one instruction.
pub open spec fn fragment_of(t: Token) -> Seq<char> {
    match t {
        Token::Add => "++*ptr;\n"@,
        Token::Sub => "--*ptr;\n"@,
        Token::Right => "++ptr;\n"@,
        Token::Left => "--ptr;\n"@,
        Token::Read => "*ptr=getchar();\n"@,
        Token::Write => "putchar(*ptr);\n"@,
        Token::BeginLoop => "while (*ptr) {\n"@,
        Token::EndLoop => "}\n"@,
    }
}

/// The body text of a generated program: one fragment per instruction, in
/// sequence order.
pub open spec fn body_of(ts: Seq<Token>) -> Seq<char>
    decreases ts.len(),
{
    if ts.len() == 0 {
        Seq::empty()
    } else {
        body_of(ts.drop_last()) + fragment_of(ts.last())
    }
}

/// The complete generated program: the preamble, one fragment per
/// instruction, and the closing brace of the function body.
pub open spec fn generated(ts: Seq<Token>) -> Seq<char> {
    preamble() + body_of(ts) + "}\n"@
}

/// Builds the fixed runtime preamble.
pub fn preamble_text() -> (s: String)
    ensures
        s@ == preamble(),
{
    let mut s = String::new();
    s.append("#include <stdio.h>\n");
    s.append("char tape[30000];\n");
    s.append("char *ptr = tape;\n");
    s.append("int main() {\n");
    proof {
        assert(s@ =~= preamble());
    }
    s
}

/// The fragment emitted for one instruction, exactly as `fragment_of`
/// describes.
fn fragment_str(t: Token) -> (s: &'static str)
    ensures
        s@ == fragment_of(t),
{
    match t {
        Token::Add => "++*ptr;\n",
        Token::Sub => "--*ptr;\n",
        Token::Right => "++ptr;\n",
        Token::Left => "--ptr;\n",
        Token::Read => "*ptr=getchar();\n",
        Token::Write => "putchar(*ptr);\n",
        Token::BeginLoop => "while (*ptr) {\n",
        Token::EndLoop => "}\n",
    }
}

/// Folds the instruction sequence into target text: the preamble first, then
/// one fixed fragment per instruction in order, then the closing brace.
/// Generation is total and performs no bracket-balance bookkeeping.
pub fn generate(tokens: &Vec<Token>) -> (out: String)
    ensures
        out@ == generated(tokens@),
{
    let mut output = preamble_text();
    let n = tokens.len();
    let mut i: usize = 0;
    proof {
        assert(output@ =~= preamble() + body_of(tokens@.subrange(0, 0)));
    }
    while i < n
        invariant
            i <= n,
            n == tokens@.len(),
            output@ == preamble() + body_of(tokens@.subrange(0, i as int)),
        decreases n - i,
    {
        let frag = fragment_str(tokens[i]);
        output.append(frag);
        proof {
            let pre = tokens@.subrange(0, i + 1);
            assert(pre.drop_last() =~= tokens@.subrange(0, i as int));
            assert(pre.last() == tokens@[i as int]);
            assert(output@ =~= preamble() + body_of(pre));
        }
        i = i + 1;
    }
    proof {
        assert(tokens@.subrange(0, n as int) =~= tokens@);
    }
    output.append("}\n");
    proof {
        assert(output@ =~= generated(tokens@));
    }
    output
}

/// How many times a character occurs in a sequence.
pub open spec fn count_char(s: Seq<char>, c: char) -> nat
    decreases s.len(),
{
    if s.len() == 0 {
        0
    } else {
        count_char(s.drop_last(), c) + if s.last() == c {
            1nat
        } else {
            0nat
        }
    }
}

/// How many times an instruction occurs in a sequence.
pub open spec fn count_token(ts: Seq<Token>, t: Token) -> nat
    decreases ts.len(),
{
    if ts.len() == 0 {
        0
    } else {
        count_token(ts.drop_last(), t) + if ts.last() == t {
            1nat
        } else {
            0nat
        }
    }
}

/// Character counts add up over concatenation.
pub proof fn lemma_count_char_add(a: Seq<char>, b: Seq<char>, c: char)
    ensures
        count_char(a + b, c) == count_char(a, c) + count_char(b, c),
    decreases b.len(),
{
    if b.len() == 0 {
        assert(a + b =~= a);
    } else {
        lemma_count_char_add(a, b.drop_last(), c);
        assert((a + b).drop_last() =~= a + b.drop_last());
        assert((a + b).last() == b.last());
    }
}

/// Each instruction's fragment holds one opening brace exactly when the
/// instruction is LoopBegin, and one closing brace exactly when it is
/// LoopEnd; no fragment holds any other brace.
pub proof fn lemma_fragment_braces(t: Token)
    ensures
        count_char(fragment_of(t), '{') == if t is BeginLoop {
            1nat
        } else {
            0nat
        },
        count_char(fragment_of(t), '}') == if t is EndLoop {
            1nat
        } else {
            0nat
        },
{
    reveal_with_fuel(count_char, 17);
    match t {
        Token::Add => {
            reveal_strlit("++*ptr;\n");
        },
        Token::Sub => {
            reveal_strlit("--*ptr;\n");
        },
        Token::Right => {
            reveal_strlit("++ptr;\n");
        },
        Token::Left => {
            reveal_strlit("--ptr;\n");
        },
        Token::Read => {
            reveal_strlit("*ptr=getchar();\n");
        },
        Token::Write => {
            reveal_strlit("putchar(*ptr);\n");
        },
        Token::BeginLoop => {
            reveal_strlit("while (*ptr) {\n");
        },
        Token::EndLoop => {
            reveal_strlit("}\n");
        },
    }
}

/// The preamble opens the function body with its single opening brace and
/// closes nothing.
pub proof fn lemma_preamble_braces()
    ensures
        count_char(preamble(), '{') == 1,
        count_char(preamble(), '}') == 0,
{
    reveal_with_fuel(count_char, 20);
    reveal_strlit("#include <stdio.h>\n");
    reveal_strlit("char tape[30000];\n");
    reveal_strlit("char *ptr = tape;\n");
    reveal_strlit("int main() {\n");
    let l1 = "#include <stdio.h>\n"@;
    let l2 = "char tape[30000];\n"@;
    let l3 = "char *ptr = tape;\n"@;
    let l4 = "int main() {\n"@;
    lemma_count_char_add(l1, l2, '{');
    lemma_count_char_add(l1 + l2, l3, '{');
    lemma_count_char_add(l1 + l2 + l3, l4, '{');
    lemma_count_char_add(l1, l2, '}');
    lemma_count_char_add(l1 + l2, l3, '}');
    lemma_count_char_add(l1 + l2 + l3, l4, '}');
}

/// The body text holds exactly one opening brace per LoopBegin and one
/// closing brace per LoopEnd.
pub proof fn lemma_body_braces(ts: Seq<Token>)
    ensures
        count_char(body_of(ts), '{') == count_token(ts, Token::BeginLoop),
        count_char(body_of(ts), '}') == count_token(ts, Token::EndLoop),
    decreases ts.len(),
{
    if ts.len() != 0 {
        let d = ts.drop_last();
        let t = ts.last();
        lemma_body_braces(d);
        lemma_fragment_braces(t);
        lemma_count_char_add(body_of(d), fragment_of(t), '{');
        lemma_count_char_add(body_of(d), fragment_of(t), '}');
    }
}

/// Structural correspondence: beyond the one brace pair that the preamble
/// and the final closing brace contribute, the generated text holds exactly
/// one opening brace per LoopBegin and one closing brace per LoopEnd, so its
/// brace balance equals the instruction sequence's bracket balance.
pub proof fn lemma_brace_correspondence(ts: Seq<Token>)
    ensures
        count_char(generated(ts), '{') == 1 + count_token(ts, Token::BeginLoop),
        count_char(generated(ts), '}') == 1 + count_token(ts, Token::EndLoop),
        count_char(generated(ts), '{') - count_char(generated(ts), '}') == count_token(
            ts,
            Token::BeginLoop,
        ) - count_token(ts, Token::EndLoop),
{
    reveal_with_fuel(count_char, 3);
    reveal_strlit("}\n");
    lemma_preamble_braces();
    lemma_body_braces(ts);
    lemma_count_char_add(preamble(), body_of(ts), '{');
    lemma_count_char_add(preamble() + body_of(ts), "}\n"@, '{');
    lemma_count_char_add(preamble(), body_of(ts), '}');
    lemma_count_char_add(preamble() + body_of(ts), "}\n"@, '}');
}

/// Generation totality: every instruction sequence, the empty one included,
/// yields non-empty text holding at least the preamble and the final
/// closing brace.
pub proof fn lemma_generate_nonempty(ts: Seq<Token>)
    ensures
        generated(ts).len() >= preamble().len() + 2,
        generated(ts).len() > 0,
{
    reveal_strlit("}\n");
}

/// Idempotence of mapping: the generated text is a function of the
/// instruction sequence alone, so generating twice from equal sequences
/// yields identical text.
pub proof fn lemma_generate_identical(ts1: Seq<Token>, ts2: Seq<Token>)
    requires
        ts1 == ts2,
    ensures
        generated(ts1) == generated(ts2),
{
}

} // verus!
