//! Decimal text for counter values.
//!
//! The specification side defines what the decimal rendering of a
//! non-negative integer is ([`decimal_text`]) and what number a sequence of
//! digit characters denotes ([`text_value`]); [`lemma_decimal_canonical`]
//! ties the two together: the rendering of `n` is a non-empty digit string
//! that denotes exactly `n` and carries no leading zero.

use vstd::prelude::*;
use vstd::arithmetic::div_mod::lemma_fundamental_div_mod;

verus! {

/// The character for a single decimal digit `d < 10`.
pub open spec fn digit_char(d: nat) -> char {
    if d == 0 {
        '0'
    } else if d == 1 {
        '1'
    } else if d == 2 {
        '2'
    } else if d == 3 {
        '3'
    } else if d == 4 {
        '4'
    } else if d == 5 {
        '5'
    } else if d == 6 {
        '6'
    } else if d == 7 {
        '7'
    } else if d == 8 {
        '8'
    } else {
        '9'
    }
}

/// Whether `c` is one of the ten decimal digit characters.
pub open spec fn is_decimal_digit(c: char) -> bool {
    '0' <= c <= '9'
}

/// The numeric value of a decimal digit character.
pub open spec fn digit_value(c: char) -> nat {
    (c as nat - '0' as nat) as nat
}

/// The decimal digits of `n`, most significant first; empty for zero.
pub open spec fn digits(n: nat) -> Seq<char>
    decreases n,
{
    if n == 0 {
        Seq::empty()
    } else {
        digits(n / 10).push(digit_char(n % 10))
    }
}

/// The decimal text of `n`: `"0"` for zero, otherwise the digits of `n`.
pub open spec fn decimal_text(n: nat) -> Seq<char> {
    if n == 0 {
        seq!['0']
    } else {
        digits(n)
    }
}

/// The number that a sequence of decimal digit characters denotes in base
/// ten; an empty sequence denotes zero.
pub open spec fn text_value(s: Seq<char>) -> nat
    decreases s.len(),
{
    if s.len() == 0 {
        0
    } else {
        text_value(s.drop_last()) * 10 + digit_value(s.last())
    }
}

proof fn lemma_digits_canonical(n: nat)
    ensures
        text_value(digits(n)) == n,
        n > 0 ==> digits(n).len() >= 1,
        n > 0 ==> digits(n)[0] != '0',
        forall|i: int| 0 <= i < digits(n).len() ==> is_decimal_digit(#[trigger] digits(n)[i]),
    decreases n,
{
    if n > 0 {
        lemma_digits_canonical(n / 10);
        lemma_fundamental_div_mod(n as int, 10);
        let s = digits(n / 10);
        let c = digit_char(n % 10);
        assert(digits(n) == s.push(c));
        assert(s.push(c).drop_last() =~= s);
        assert(digit_value(c) == n % 10);
        assert(text_value(digits(n)) == text_value(s) * 10 + (n % 10));
        if n / 10 == 0 {
            assert(n % 10 == n);
            assert(digits(n)[0] == c);
        } else {
            assert(digits(n)[0] == s[0]);
        }
        assert forall|i: int| 0 <= i < digits(n).len() implies is_decimal_digit(
            #[trigger] digits(n)[i],
        ) by {
            if i < s.len() {
                assert(digits(n)[i] == s[i]);
            } else {
                assert(digits(n)[i] == c);
            }
        }
    }
}

/// The rendered text of `n` is the canonical decimal representation: it is
/// non-empty, every character is a decimal digit, it denotes exactly `n` in
/// base ten, and it has no leading zero (except for the single character of
/// `"0"` itself).
pub proof fn lemma_decimal_canonical(n: nat)
    ensures
        text_value(decimal_text(n)) == n,
        decimal_text(n).len() >= 1,
        forall|i: int| 0 <= i < decimal_text(n).len() ==> is_decimal_digit(
            #[trigger] decimal_text(n)[i],
        ),
        decimal_text(n).len() > 1 ==> decimal_text(n)[0] != '0',
{
    lemma_digits_canonical(n);
    if n == 0 {
        let z = seq!['0'];
        assert(z.drop_last() =~= Seq::<char>::empty());
        assert(text_value(z) == digit_value('0'));
    }
}

/// The single-character text of one decimal digit.
pub(crate) fn digit_str(d: u128) -> (s: &'static str)
    requires
        d < 10,
    ensures
        s@ == seq![digit_char(d as nat)],
{
    proof {
        reveal_strlit("0");
        reveal_strlit("1");
        reveal_strlit("2");
        reveal_strlit("3");
        reveal_strlit("4");
        reveal_strlit("5");
        reveal_strlit("6");
        reveal_strlit("7");
        reveal_strlit("8");
        reveal_strlit("9");
    }
    let s: &'static str = if d == 0 {
        "0"
    } else if d == 1 {
        "1"
    } else if d == 2 {
        "2"
    } else if d == 3 {
        "3"
    } else if d == 4 {
        "4"
    } else if d == 5 {
        "5"
    } else if d == 6 {
        "6"
    } else if d == 7 {
        "7"
    } else if d == 8 {
        "8"
    } else {
        "9"
    };
    proof {
        assert(s@ =~= seq![digit_char(d as nat)]);
    }
    s
}

} // verus!
