//! Rendering of unsigned numbers as text, in the two forms the rest of the
//! crate needs: plain decimal, and lower-case hexadecimal padded to two digits.

use vstd::prelude::*;
use vstd::string::*;

verus! {

/// The character that stands for the digit `d` in bases up to sixteen.
pub open spec fn digit(d: nat) -> char {
    if d == 0 {
        '0'
    } else if d == 1 {
        '1'
    } else if d == 2 {
        '2'
    } else if d == 3 {
        '3'
    } else if d == 4 {
        '4'
    } else if d == 5 {
        '5'
    } else if d == 6 {
        '6'
    } else if d == 7 {
        '7'
    } else if d == 8 {
        '8'
    } else if d == 9 {
        '9'
    } else if d == 10 {
        'a'
    } else if d == 11 {
        'b'
    } else if d == 12 {
        'c'
    } else if d == 13 {
        'd'
    } else if d == 14 {
        'e'
    } else {
        'f'
    }
}

/// The decimal numeral of `n`, most significant digit first, without padding.
pub open spec fn decimal_text(n: nat) -> Seq<char>
    decreases n,
{
    if n < 10 {
        seq![digit(n)]
    } else {
        decimal_text(n / 10).push(digit(n % 10))
    }
}

/// The lower-case hexadecimal numeral of `n`, without padding.
pub open spec fn hex_text(n: nat) -> Seq<char>
    decreases n,
{
    if n < 16 {
        seq![digit(n)]
    } else {
        hex_text(n / 16).push(digit(n % 16))
    }
}

/// The lower-case hexadecimal numeral of `n`, with a leading zero where it
/// would otherwise be a single digit.
pub open spec fn padded_hex_text(n: nat) -> Seq<char> {
    if n < 16 {
        seq!['0', digit(n)]
    } else {
        hex_text(n)
    }
}

proof fn lemma_digit_injective(a: nat, b: nat)
    requires
        a < 16,
        b < 16,
        digit(a) == digit(b),
    ensures
        a == b,
{
}

proof fn lemma_hex_text_shape(n: nat)
    ensures
        n < 16 ==> hex_text(n).len() == 1,
        n >= 16 ==> hex_text(n).len() >= 2,
        n >= 1 ==> hex_text(n)[0] != '0',
    decreases n,
{
    if n >= 16 {
        lemma_hex_text_shape(n / 16);
    }
}

/// Different numbers have different hexadecimal numerals.
pub proof fn lemma_hex_text_injective(a: nat, b: nat)
    requires
        hex_text(a) == hex_text(b),
    ensures
        a == b,
    decreases a,
{
    lemma_hex_text_shape(a);
    lemma_hex_text_shape(b);
    if a < 16 && b < 16 {
        lemma_digit_injective(a, b);
    } else if a >= 16 && b >= 16 {
        let high_a = hex_text(a / 16);
        let high_b = hex_text(b / 16);
        assert(hex_text(b).last() == digit(b % 16));
        lemma_digit_injective(a % 16, b % 16);
        assert(high_a =~= hex_text(a).drop_last());
        assert(high_b =~= hex_text(b).drop_last());
        lemma_hex_text_injective(a / 16, b / 16);
    }
}

/// Different numbers have different padded hexadecimal numerals.
pub proof fn lemma_padded_hex_text_injective(a: nat, b: nat)
    requires
        padded_hex_text(a) == padded_hex_text(b),
    ensures
        a == b,
{
    lemma_hex_text_shape(a);
    lemma_hex_text_shape(b);
    if a < 16 && b < 16 {
        lemma_digit_injective(a, b);
    } else if a >= 16 && b >= 16 {
        lemma_hex_text_injective(a, b);
    }
}

fn digit_str(d: u64) -> (s: &'static str)
    requires
        d < 16,
    ensures
        s@ == seq![digit(d as nat)],
{
    proof {
        reveal_strlit("0");
        reveal_strlit("1");
        reveal_strlit("2");
        reveal_strlit("3");
        reveal_strlit("4");
        reveal_strlit("5");
        reveal_strlit("6");
        reveal_strlit("7");
        reveal_strlit("8");
        reveal_strlit("9");
        reveal_strlit("a");
        reveal_strlit("b");
        reveal_strlit("c");
        reveal_strlit("d");
        reveal_strlit("e");
        reveal_strlit("f");
    }
    if d == 0 {
        "0"
    } else if d == 1 {
        "1"
    } else if d == 2 {
        "2"
    } else if d == 3 {
        "3"
    } else if d == 4 {
        "4"
    } else if d == 5 {
        "5"
    } else if d == 6 {
        "6"
    } else if d == 7 {
        "7"
    } else if d == 8 {
        "8"
    } else if d == 9 {
        "9"
    } else if d == 10 {
        "a"
    } else if d == 11 {
        "b"
    } else if d == 12 {
        "c"
    } else if d == 13 {
        "d"
    } else if d == 14 {
        "e"
    } else {
        "f"
    }
}

/// Writes `n` in decimal.
pub fn decimal(n: u64) -> (s: String)
    ensures
        s@ == decimal_text(n as nat),
    decreases n,
{
    if n < 10 {
        String::from_str(digit_str(n))
    } else {
        let mut s = decimal(n / 10);
        s.append(digit_str(n % 10));
        s
    }
}

fn hex(n: u64) -> (s: String)
    ensures
        s@ == hex_text(n as nat),
    decreases n,
{
    if n < 16 {
        String::from_str(digit_str(n))
    } else {
        let mut s = hex(n / 16);
        s.append(digit_str(n % 16));
        s
    }
}

/// Writes `n` in lower-case hexadecimal, at least two digits wide.
pub fn padded_hex(n: u64) -> (s: String)
    ensures
        s@ == padded_hex_text(n as nat),
{
    if n < 16 {
        let mut s = String::from_str("0");
        s.append(digit_str(n));
        proof {
            reveal_strlit("0");
        }
        s
    } else {
        hex(n)
    }
}

} // verus!
