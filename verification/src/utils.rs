//! Numeric formatting helpers: rounding to a multiple of one hundred and
//! phonetic rendering of a number's textual form.

use crate::strutil::push_char;
use vstd::arithmetic::div_mod::{lemma_div_pos_is_pos, lemma_fundamental_div_mod, lemma_mod_bound};
use vstd::prelude::*;
use vstd::string::StringExecFns;

verus! {

/// Truncating rounding to a multiple of one hundred: the value is moved
/// toward zero to the nearest hundred.
pub open spec fn round_hundreds_spec(n: int) -> int {
    if n >= 0 {
        (n / 100) * 100
    } else {
        -(((-n) / 100) * 100)
    }
}

proof fn lemma_round_hundreds_bounds(x: int)
    requires
        x >= 0,
    ensures
        0 <= x / 100 <= x,
        0 <= (x / 100) * 100 <= x,
{
    lemma_fundamental_div_mod(x, 100);
    lemma_mod_bound(x, 100);
    lemma_div_pos_is_pos(x, 100);
}

/// Rounds toward zero to the nearest multiple of one hundred
/// (so both positive and negative values move toward zero).
pub fn round_hundreds(n: i32) -> (r: i32)
    ensures
        r as int == round_hundreds_spec(n as int),
{
    proof {
        if n >= 0 {
            lemma_round_hundreds_bounds(n as int);
        } else {
            lemma_round_hundreds_bounds(-(n as int));
        }
    }
    let q = n.checked_div(100).unwrap();
    q * 100
}

/// The phonetic token spoken for one character of a number's textual
/// form: the decimal point and the digits zero and nine get full words,
/// every other character stands for itself.
pub open spec fn token_of(c: char) -> Seq<char> {
    if c == '.' {
        "DECIMAL"@
    } else if c == '0' {
        "ZERO"@
    } else if c == '9' {
        "NINER"@
    } else {
        seq![c]
    }
}

/// The phonetic rendering of a whole textual form: the tokens of its
/// characters joined by single spaces.
pub open spec fn pronounce_spec(s: Seq<char>) -> Seq<char>
    decreases s.len(),
{
    if s.len() == 0 {
        Seq::empty()
    } else if s.len() == 1 {
        token_of(s[0])
    } else {
        token_of(s[0]) + seq![' '] + pronounce_spec(s.drop_first())
    }
}

/// Extending the input by one character extends the rendering by one
/// token, with a joining space unless the input was empty.
pub proof fn lemma_pronounce_spec_push(s: Seq<char>, c: char)
    ensures
        pronounce_spec(s.push(c)) == if s.len() == 0 {
            token_of(c)
        } else {
            pronounce_spec(s) + seq![' '] + token_of(c)
        },
    decreases s.len(),
{
    let sp = s.push(c);
    if s.len() == 0 {
        assert(sp.len() == 1);
        assert(sp[0] == c);
    } else {
        assert(sp.drop_first() =~= s.drop_first().push(c));
        lemma_pronounce_spec_push(s.drop_first(), c);
        if s.len() == 1 {
            assert(pronounce_spec(sp) == token_of(s[0]) + seq![' '] + token_of(c));
        } else {
            assert(token_of(s[0]) + seq![' '] + (pronounce_spec(s.drop_first()) + seq![' ']
                + token_of(c)) =~= (token_of(s[0]) + seq![' '] + pronounce_spec(s.drop_first()))
                + seq![' '] + token_of(c));
        }
    }
}

/// Renders a number's textual form for radio readability. When
/// `pronounce` is false the text is returned unchanged; otherwise each
/// character becomes its phonetic token and the tokens are joined with
/// single spaces.
pub fn pronounce_number(n: &str, pronounce: bool) -> (r: String)
    ensures
        pronounce ==> r@ == pronounce_spec(n@),
        !pronounce ==> r@ == n@,
{
    if !pronounce {
        return n.to_owned();
    }
    let len = n.unicode_len();
    let mut out = String::new();
    let mut i: usize = 0;
    while i < len
        invariant
            i <= len,
            len == n@.len(),
            out@ == pronounce_spec(n@.take(i as int)),
        decreases len - i,
    {
        let c = n.get_char(i);
        proof {
            assert(n@.take(i as int).push(c) =~= n@.take(i as int + 1));
            lemma_pronounce_spec_push(n@.take(i as int), c);
        }
        if i > 0 {
            push_char(&mut out, ' ');
        }
        if c == '.' {
            out.append("DECIMAL");
        } else if c == '0' {
            out.append("ZERO");
        } else if c == '9' {
            out.append("NINER");
        } else {
            push_char(&mut out, c);
        }
        proof {
            assert(out@ =~= pronounce_spec(n@.take(i as int + 1)));
        }
        i += 1;
    }
    proof {
        assert(n@.take(len as int) =~= n@);
    }
    out
}

} // verus!
