//! Decimal digits: rendering an id into a URL and reading a numeric token.

use vstd::prelude::*;

verus! {

/// The character for one decimal digit value.
pub open spec fn digit_char(d: nat) -> char {
    if d == 0 {
        '0'
    } else if d == 1 {
        '1'
    } else if d == 2 {
        '2'
    } else if d == 3 {
        '3'
    } else if d == 4 {
        '4'
    } else if d == 5 {
        '5'
    } else if d == 6 {
        '6'
    } else if d == 7 {
        '7'
    } else if d == 8 {
        '8'
    } else {
        '9'
    }
}

/// The decimal rendering of a natural number, most significant digit first,
/// with no sign and no leading zero (except for zero itself).
pub open spec fn dec_digits(n: nat) -> Seq<char>
    decreases n,
{
    if n < 10 {
        seq![digit_char(n)]
    } else {
        dec_digits(n / 10) + seq![digit_char(n % 10)]
    }
}

/// Whether `c` is an ASCII decimal digit.
pub open spec fn is_digit(c: char) -> bool {
    48 <= c as u32 && c as u32 <= 57
}

/// The value of one ASCII decimal digit.
pub open spec fn digit_val(c: char) -> nat {
    (c as u32 - 48) as nat
}

/// Whether every character of `s` is an ASCII decimal digit.
pub open spec fn all_digits(s: Seq<char>) -> bool {
    forall|i: int| 0 <= i < s.len() ==> is_digit(#[trigger] s[i])
}

/// The value of a sequence of ASCII decimal digits, read base ten.
pub open spec fn digits_val(s: Seq<char>) -> nat
    decreases s.len(),
{
    if s.len() == 0 {
        0
    } else {
        digits_val(s.drop_last()) * 10 + digit_val(s.last())
    }
}

/// Reading one more digit multiplies the value so far by ten and adds it.
pub proof fn lemma_digits_val_subrange_succ(s: Seq<char>, a: int, i: int)
    requires
        0 <= a <= i < s.len(),
    ensures
        digits_val(s.subrange(a, i + 1)) == digits_val(s.subrange(a, i)) * 10 + digit_val(s[i]),
{
    assert(s.subrange(a, i + 1).drop_last() =~= s.subrange(a, i));
    assert(s.subrange(a, i + 1).last() == s[i]);
}

/// The value of a digit sequence never shrinks as digits are appended.
pub proof fn lemma_digits_val_subrange_le(s: Seq<char>, a: int, i: int)
    requires
        0 <= a <= i <= s.len(),
    ensures
        digits_val(s.subrange(a, i)) <= digits_val(s.subrange(a, s.len() as int)),
    decreases s.len() - i,
{
    if i == s.len() {
    } else {
        lemma_digits_val_subrange_succ(s, a, i);
        lemma_digits_val_subrange_le(s, a, i + 1);
    }
}

/// The decimal rendering of a number is made of digits, starts with one,
/// and reads back as the number itself.
pub proof fn lemma_dec_digits_val(n: nat)
    ensures
        dec_digits(n).len() > 0,
        all_digits(dec_digits(n)),
        is_digit(dec_digits(n)[0]),
        digits_val(dec_digits(n)) == n,
    decreases n,
{
    reveal_with_fuel(digits_val, 2);
    if n < 10 {
        assert(dec_digits(n).drop_last() =~= Seq::<char>::empty());
        assert(digit_val(digit_char(n)) == n);
    } else {
        lemma_dec_digits_val(n / 10);
        assert(dec_digits(n).drop_last() =~= dec_digits(n / 10));
        assert(dec_digits(n).last() == digit_char(n % 10));
        assert(digit_val(digit_char(n % 10)) == n % 10);
        assert(digits_val(dec_digits(n)) == (n / 10) * 10 + (n % 10));
        assert((n / 10) * 10 + (n % 10) == n) by {
            vstd::arithmetic::div_mod::lemma_fundamental_div_mod(n as int, 10);
        }
    }
}

/// The string of one decimal digit.
fn digit_str(d: u64) -> (r: &'static str)
    requires
        d < 10,
    ensures
        r@ == seq![digit_char(d as nat)],
{
    proof {
        reveal_strlit("0");
        reveal_strlit("1");
        reveal_strlit("2");
        reveal_strlit("3");
        reveal_strlit("4");
        reveal_strlit("5");
        reveal_strlit("6");
        reveal_strlit("7");
        reveal_strlit("8");
        reveal_strlit("9");
    }
    let r = match d {
        0 => "0",
        1 => "1",
        2 => "2",
        3 => "3",
        4 => "4",
        5 => "5",
        6 => "6",
        7 => "7",
        8 => "8",
        _ => "9",
    };
    proof {
        assert(r@ =~= seq![digit_char(d as nat)]);
    }
    r
}

/// Renders `n` in decimal, as `dec_digits` describes.
pub fn u64_to_string(n: u64) -> (r: String)
    ensures
        r@ == dec_digits(n as nat),
    decreases n,
{
    if n < 10 {
        String::from_str(digit_str(n))
    } else {
        let mut s = u64_to_string(n / 10);
        s.append(digit_str(n % 10));
        proof {
            assert(s@ =~= dec_digits(n as nat));
        }
        s
    }
}

} // verus!
