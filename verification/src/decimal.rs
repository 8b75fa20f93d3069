//! Decimal rendering of integers, as used inside generated SQL text.

use vstd::prelude::*;

verus! {

/// The character that writes the decimal digit `d` (for `0 <= d < 10`).
pub open spec fn digit_char(d: int) -> char {
    (d + 48) as char
}

/// The decimal digits of a natural number, most significant first, with no leading zeros.
pub open spec fn digits(n: nat) -> Seq<char>
    decreases n,
{
    if n < 10 {
        seq![digit_char(n as int)]
    } else {
        digits(n / 10).push(digit_char((n % 10) as int))
    }
}

/// The decimal rendering of an integer: a minus sign for negative values, then its digits.
pub open spec fn decimal(n: int) -> Seq<char> {
    if n < 0 {
        seq!['-'] + digits((-n) as nat)
    } else {
        digits(n as nat)
    }
}

/// The number that a decimal digit character stands for.
pub open spec fn digit_value(c: char) -> int {
    (c as int) - 48
}

/// The natural number that a sequence of decimal digits reads as.
pub open spec fn digits_value(s: Seq<char>) -> int
    decreases s.len(),
{
    if s.len() == 0 {
        0
    } else {
        digits_value(s.drop_last()) * 10 + digit_value(s.last())
    }
}

/// The integer that a decimal text reads as: an optional minus sign, then digits.
pub open spec fn decimal_value(s: Seq<char>) -> int {
    if s.len() > 0 && s[0] == '-' {
        -digits_value(s.drop_first())
    } else {
        digits_value(s)
    }
}

/// The digits of `n` are decimal digit characters, and only zero itself starts with `'0'`.
pub proof fn lemma_digits_well_formed(n: nat)
    ensures
        digits(n).len() > 0,
        forall|i: int| 0 <= i < digits(n).len() ==> '0' <= #[trigger] digits(n)[i] <= '9',
        digits(n)[0] == '0' ==> n == 0,
    decreases n,
{
    if n >= 10 {
        lemma_digits_well_formed(n / 10);
        let d = digits(n / 10);
        assert forall|i: int| 0 <= i < digits(n).len() implies '0' <= #[trigger] digits(n)[i] <= '9' by {
            if i < d.len() {
                assert(digits(n)[i] == d[i]);
            }
        }
        assert(digits(n)[0] == d[0]);
    }
}

/// Reading back the digits of `n` gives `n`.
pub proof fn lemma_digits_round_trip(n: nat)
    ensures
        digits_value(digits(n)) == n,
    decreases n,
{
    if n < 10 {
        assert(digits(n).drop_last() =~= Seq::<char>::empty());
        assert(digit_value(digit_char(n as int)) == n);
        assert(digits_value(Seq::<char>::empty()) == 0);
    } else {
        lemma_digits_round_trip(n / 10);
        let d = digits(n / 10);
        let c = digit_char((n % 10) as int);
        assert(d.push(c).drop_last() =~= d);
        assert(digit_value(c) == n % 10);
        assert(digits_value(d.push(c)) == digits_value(d) * 10 + digit_value(c));
    }
}

/// Reading back the decimal rendering of any integer gives that integer, so the rendering
/// loses nothing: two integers with the same rendering are equal.
pub proof fn lemma_decimal_round_trip(n: int)
    ensures
        decimal_value(decimal(n)) == n,
{
    if n < 0 {
        let d = digits((-n) as nat);
        lemma_digits_round_trip((-n) as nat);
        assert((seq!['-'] + d).drop_first() =~= d);
    } else {
        lemma_digits_well_formed(n as nat);
        lemma_digits_round_trip(n as nat);
        assert('0' <= digits(n as nat)[0]);
    }
}

fn digit_str(d: u64) -> (s: &'static str)
    requires
        d < 10,
    ensures
        s@ == seq![digit_char(d as int)],
{
    proof {
        reveal_strlit("0");
        reveal_strlit("1");
        reveal_strlit("2");
        reveal_strlit("3");
        reveal_strlit("4");
        reveal_strlit("5");
        reveal_strlit("6");
        reveal_strlit("7");
        reveal_strlit("8");
        reveal_strlit("9");
    }
    if d == 0 {
        "0"
    } else if d == 1 {
        "1"
    } else if d == 2 {
        "2"
    } else if d == 3 {
        "3"
    } else if d == 4 {
        "4"
    } else if d == 5 {
        "5"
    } else if d == 6 {
        "6"
    } else if d == 7 {
        "7"
    } else if d == 8 {
        "8"
    } else {
        "9"
    }
}

fn append_digits(s: &mut String, m: u64)
    ensures
        final(s)@ == old(s)@ + digits(m as nat),
    decreases m,
{
    if m >= 10 {
        append_digits(s, m / 10);
    }
    s.append(digit_str(m % 10));
    assert(final(s)@ == old(s)@ + digits(m as nat)) by {
        if m >= 10 {
            assert(old(s)@ + digits((m / 10) as nat) + seq![digit_char((m % 10) as int)]
                =~= old(s)@ + digits((m / 10) as nat).push(digit_char((m % 10) as int)));
        }
    }
}

/// Renders `n` in decimal, as `i32`'s `to_string` does.
pub fn decimal_string(n: i32) -> (s: String)
    ensures
        s@ == decimal(n as int),
{
    let mut s = String::new();
    if n < 0 {
        proof {
            reveal_strlit("-");
        }
        s.append("-");
        let m: u64 = (0i64 - n as i64) as u64;
        append_digits(&mut s, m);
    } else {
        append_digits(&mut s, n as u64);
    }
    s
}

} // verus!
