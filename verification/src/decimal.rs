//! Decimal rendering of unsigned integers, as used in labels.

use vstd::prelude::*;

verus! {

/// The ASCII digit for a value below ten.
pub open spec fn digit_char(d: nat) -> char
    recommends
        d < 10,
{
    if d == 0 {
        '0'
    } else if d == 1 {
        '1'
    } else if d == 2 {
        '2'
    } else if d == 3 {
        '3'
    } else if d == 4 {
        '4'
    } else if d == 5 {
        '5'
    } else if d == 6 {
        '6'
    } else if d == 7 {
        '7'
    } else if d == 8 {
        '8'
    } else {
        '9'
    }
}

/// The usual base-ten text of `n`: most significant digit first, no
/// leading zeros, and `"0"` for zero.
pub open spec fn decimal_chars(n: nat) -> Seq<char>
    decreases n,
{
    if n < 10 {
        seq![digit_char(n)]
    } else {
        decimal_chars(n / 10).push(digit_char(n % 10))
    }
}

/// Whether `c` is one of the ASCII digits `'0'` to `'9'`.
pub open spec fn is_ascii_digit(c: char) -> bool {
    '0' <= c && c <= '9'
}

/// The value of an ASCII digit: its code minus the code of `'0'`.
pub open spec fn ascii_digit_value(c: char) -> int {
    (c as int) - ('0' as int)
}

/// The number that a string of ASCII digits denotes in base ten, most
/// significant digit first.
pub open spec fn base_ten_value(s: Seq<char>) -> int
    decreases s.len(),
{
    if s.len() == 0 {
        0
    } else {
        base_ten_value(s.drop_last()) * 10 + ascii_digit_value(s.last())
    }
}

/// The decimal text of `n` is made of ASCII digits, has no leading zero
/// (only zero itself starts with `'0'`), and read back in base ten gives `n`.
pub proof fn lemma_decimal_chars_denote(n: nat)
    ensures
        decimal_chars(n).len() > 0,
        forall|i: int| 0 <= i < decimal_chars(n).len() ==> is_ascii_digit(#[trigger] decimal_chars(n)[i]),
        decimal_chars(n)[0] == '0' ==> n == 0,
        base_ten_value(decimal_chars(n)) == n,
    decreases n,
{
    if n < 10 {
        let s = decimal_chars(n);
        assert(s == seq![digit_char(n)]);
        assert(s.drop_last() =~= Seq::<char>::empty());
        assert(base_ten_value(s.drop_last()) == 0);
        assert(s.last() == digit_char(n));
        assert(base_ten_value(s) == ascii_digit_value(digit_char(n)));
    } else {
        lemma_decimal_chars_denote(n / 10);
        let prefix = decimal_chars(n / 10);
        let d = digit_char(n % 10);
        assert(decimal_chars(n) == prefix.push(d));
        assert(prefix.push(d).drop_last() =~= prefix);
        assert(ascii_digit_value(d) == n % 10);
        assert(base_ten_value(prefix.push(d)) == (n / 10) * 10 + n % 10);
        assert(forall|i: int| 0 <= i < prefix.len() ==> prefix.push(d)[i] == prefix[i]);
    }
}

/// A one-character string holding the digit `d`.
fn digit_str(d: usize) -> (s: &'static str)
    requires
        d < 10,
    ensures
        s@ == seq![digit_char(d as nat)],
{
    proof {
        reveal_strlit("0");
        reveal_strlit("1");
        reveal_strlit("2");
        reveal_strlit("3");
        reveal_strlit("4");
        reveal_strlit("5");
        reveal_strlit("6");
        reveal_strlit("7");
        reveal_strlit("8");
        reveal_strlit("9");
    }
    if d == 0 {
        "0"
    } else if d == 1 {
        "1"
    } else if d == 2 {
        "2"
    } else if d == 3 {
        "3"
    } else if d == 4 {
        "4"
    } else if d == 5 {
        "5"
    } else if d == 6 {
        "6"
    } else if d == 7 {
        "7"
    } else if d == 8 {
        "8"
    } else {
        "9"
    }
}

/// Appends the decimal text of `n` to `s`.
pub(crate) fn push_decimal(s: &mut String, n: usize)
    ensures
        final(s)@ == old(s)@ + decimal_chars(n as nat),
    decreases n,
{
    if n >= 10 {
        push_decimal(s, n / 10);
    }
    s.append(digit_str(n % 10));
}

} // verus!
