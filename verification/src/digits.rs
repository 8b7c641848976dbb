//! Decimal rendering of unsigned and signed integers, with optional
//! zero-padding to a fixed width, as used by the scalar marshallers.

use vstd::prelude::*;
use vstd::string::StringExecFns;

verus! {

/// The character for a single decimal digit.
pub open spec fn digit_char(d: nat) -> char {
    if d == 0 {
        '0'
    } else if d == 1 {
        '1'
    } else if d == 2 {
        '2'
    } else if d == 3 {
        '3'
    } else if d == 4 {
        '4'
    } else if d == 5 {
        '5'
    } else if d == 6 {
        '6'
    } else if d == 7 {
        '7'
    } else if d == 8 {
        '8'
    } else {
        '9'
    }
}

/// The decimal digit string of a natural number, most significant digit first,
/// without leading zeros (except for the number zero itself).
pub open spec fn dec_digits(n: nat) -> Seq<char>
    decreases n,
{
    if n < 10 {
        seq![digit_char(n)]
    } else {
        dec_digits(n / 10).push(digit_char(n % 10))
    }
}

/// The decimal textual form of a signed integer: a minus sign for negative
/// numbers, then the digits of the absolute value.
pub open spec fn int_chars(i: int) -> Seq<char> {
    if i < 0 {
        seq!['-'] + dec_digits((-i) as nat)
    } else {
        dec_digits(i as nat)
    }
}

/// A run of zero characters.
pub open spec fn zeros(k: nat) -> Seq<char> {
    Seq::new(k, |i: int| '0')
}

/// The decimal digits of `n`, left-padded with zeros to at least width `w`.
pub open spec fn padded_dec(n: nat, w: nat) -> Seq<char> {
    if dec_digits(n).len() < w {
        zeros((w - dec_digits(n).len()) as nat) + dec_digits(n)
    } else {
        dec_digits(n)
    }
}

pub open spec fn pow10(k: nat) -> nat
    decreases k,
{
    if k == 0 {
        1
    } else {
        10 * pow10((k - 1) as nat)
    }
}

/// A number below `pow10(k)` has at most `k` decimal digits.
proof fn lemma_dec_digits_len_bound(n: nat, k: nat)
    requires
        1 <= k,
        n < pow10(k),
    ensures
        dec_digits(n).len() <= k,
    decreases k,
{
    if n < 10 {
    } else {
        assert(pow10(k) == 10 * pow10((k - 1) as nat));
        lemma_dec_digits_len_bound(n / 10, (k - 1) as nat);
    }
}

/// Appends one decimal digit character.
fn push_digit(s: &mut String, d: u64)
    requires
        d < 10,
    ensures
        final(s)@ == old(s)@ + seq![digit_char(d as nat)],
{
    proof {
        reveal_strlit("0");
        reveal_strlit("1");
        reveal_strlit("2");
        reveal_strlit("3");
        reveal_strlit("4");
        reveal_strlit("5");
        reveal_strlit("6");
        reveal_strlit("7");
        reveal_strlit("8");
        reveal_strlit("9");
    }
    if d == 0 {
        s.append("0");
        proof {
            assert(("0")@ =~= seq![digit_char(d as nat)]);
        }
    } else if d == 1 {
        s.append("1");
        proof {
            assert(("1")@ =~= seq![digit_char(d as nat)]);
        }
    } else if d == 2 {
        s.append("2");
        proof {
            assert(("2")@ =~= seq![digit_char(d as nat)]);
        }
    } else if d == 3 {
        s.append("3");
        proof {
            assert(("3")@ =~= seq![digit_char(d as nat)]);
        }
    } else if d == 4 {
        s.append("4");
        proof {
            assert(("4")@ =~= seq![digit_char(d as nat)]);
        }
    } else if d == 5 {
        s.append("5");
        proof {
            assert(("5")@ =~= seq![digit_char(d as nat)]);
        }
    } else if d == 6 {
        s.append("6");
        proof {
            assert(("6")@ =~= seq![digit_char(d as nat)]);
        }
    } else if d == 7 {
        s.append("7");
        proof {
            assert(("7")@ =~= seq![digit_char(d as nat)]);
        }
    } else if d == 8 {
        s.append("8");
        proof {
            assert(("8")@ =~= seq![digit_char(d as nat)]);
        }
    } else {
        s.append("9");
        proof {
            assert(("9")@ =~= seq![digit_char(d as nat)]);
        }
    }
}

/// Appends the decimal digits of `n`, most significant first.
pub fn push_u64_digits(s: &mut String, n: u64)
    ensures
        final(s)@ == old(s)@ + dec_digits(n as nat),
    decreases n,
{
    if n >= 10 {
        push_u64_digits(s, n / 10);
    }
    push_digit(s, n % 10);
}

/// The number of decimal digits of `n`.
fn count_digits(n: u64) -> (c: usize)
    ensures
        c == dec_digits(n as nat).len(),
        c <= 20,
    decreases n,
{
    if n < 10 {
        1
    } else {
        proof {
            reveal_with_fuel(pow10, 21);
            assert(pow10(19) == 10_000_000_000_000_000_000);
            lemma_dec_digits_len_bound((n / 10) as nat, 19);
        }
        1 + count_digits(n / 10)
    }
}

/// Appends `k` zero characters.
fn push_zeros(s: &mut String, k: usize)
    ensures
        final(s)@ == old(s)@ + zeros(k as nat),
{
    let mut i: usize = 0;
    proof {
        reveal_strlit("0");
    }
    while i < k
        invariant
            i <= k,
            s@ == old(s)@ + zeros(i as nat),
        decreases k - i,
    {
        s.append("0");
        proof {
            reveal_strlit("0");
            assert(old(s)@ + zeros(i as nat) + ("0")@ =~= old(s)@ + zeros((i + 1) as nat));
        }
        i += 1;
    }
    proof {
        assert(s@ =~= old(s)@ + zeros(k as nat));
    }
}

/// Appends the decimal digits of `n`, zero-padded on the left to width `w`.
pub fn push_padded(s: &mut String, n: u64, w: usize)
    ensures
        final(s)@ == old(s)@ + padded_dec(n as nat, w as nat),
{
    let c: usize = count_digits(n);
    if c < w {
        push_zeros(s, w - c);
    }
    push_u64_digits(s, n);
    proof {
        assert(s@ =~= old(s)@ + padded_dec(n as nat, w as nat));
    }
}

/// Renders an `i64` in decimal, with a leading minus sign when negative.
pub fn i64_to_string(n: i64) -> (s: String)
    ensures
        s@ == int_chars(n as int),
{
    let mut s = String::new();
    if n < 0 {
        proof {
            reveal_strlit("-");
        }
        s.append("-");
        let abs: u64 = (-(n as i128)) as u64;
        push_u64_digits(&mut s, abs);
        proof {
            assert(("-")@ =~= seq!['-']);
            assert(s@ =~= int_chars(n as int));
        }
    } else {
        push_u64_digits(&mut s, n as u64);
    }
    s
}

} // verus!
