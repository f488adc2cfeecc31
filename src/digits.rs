//! Rendering of unsigned numbers as text, in decimal or hexadecimal.
use vstd::arithmetic::div_mod::{lemma_div_decreases, lemma_small_mod};
use vstd::prelude::*;

verus! {

/// The character of digit `d` (below sixteen), in upper or lower case.
pub open spec fn digit_char(d: nat, upper: bool) -> char {
    if d == 0 {
        '0'
    } else if d == 1 {
        '1'
    } else if d == 2 {
        '2'
    } else if d == 3 {
        '3'
    } else if d == 4 {
        '4'
    } else if d == 5 {
        '5'
    } else if d == 6 {
        '6'
    } else if d == 7 {
        '7'
    } else if d == 8 {
        '8'
    } else if d == 9 {
        '9'
    } else if d == 10 {
        if upper { 'A' } else { 'a' }
    } else if d == 11 {
        if upper { 'B' } else { 'b' }
    } else if d == 12 {
        if upper { 'C' } else { 'c' }
    } else if d == 13 {
        if upper { 'D' } else { 'd' }
    } else if d == 14 {
        if upper { 'E' } else { 'e' }
    } else if d == 15 {
        if upper { 'F' } else { 'f' }
    } else {
        '?'
    }
}

/// The digits of `n` in `base`, most significant first, without leading zeros.
pub open spec fn digits(n: nat, base: nat, upper: bool) -> Seq<char>
    decreases n
    via digits_decreases
{
    if base < 2 || n < base {
        seq![digit_char(n, upper)]
    } else {
        digits(n / base, base, upper).push(digit_char(n % base, upper))
    }
}

#[via_fn]
proof fn digits_decreases(n: nat, base: nat, upper: bool) {
    if !(base < 2 || n < base) {
        lemma_div_decreases(n as int, base as int);
    }
}

/// `n` in decimal.
pub open spec fn decimal(n: nat) -> Seq<char> {
    digits(n, 10, false)
}

/// `n` in hexadecimal, with upper- or lower-case letters.
pub open spec fn hex(n: nat, upper: bool) -> Seq<char> {
    digits(n, 16, upper)
}

fn digit_str(d: u64, upper: bool) -> (r: &'static str)
    requires
        d < 16,
    ensures
        r@ == seq![digit_char(d as nat, upper)],
{
    if d == 0 {
        proof { reveal_strlit("0"); }
        "0"
    } else if d == 1 {
        proof { reveal_strlit("1"); }
        "1"
    } else if d == 2 {
        proof { reveal_strlit("2"); }
        "2"
    } else if d == 3 {
        proof { reveal_strlit("3"); }
        "3"
    } else if d == 4 {
        proof { reveal_strlit("4"); }
        "4"
    } else if d == 5 {
        proof { reveal_strlit("5"); }
        "5"
    } else if d == 6 {
        proof { reveal_strlit("6"); }
        "6"
    } else if d == 7 {
        proof { reveal_strlit("7"); }
        "7"
    } else if d == 8 {
        proof { reveal_strlit("8"); }
        "8"
    } else if d == 9 {
        proof { reveal_strlit("9"); }
        "9"
    } else if d == 10 {
        if upper {
            proof { reveal_strlit("A"); }
            "A"
        } else {
            proof { reveal_strlit("a"); }
            "a"
        }
    } else if d == 11 {
        if upper {
            proof { reveal_strlit("B"); }
            "B"
        } else {
            proof { reveal_strlit("b"); }
            "b"
        }
    } else if d == 12 {
        if upper {
            proof { reveal_strlit("C"); }
            "C"
        } else {
            proof { reveal_strlit("c"); }
            "c"
        }
    } else if d == 13 {
        if upper {
            proof { reveal_strlit("D"); }
            "D"
        } else {
            proof { reveal_strlit("d"); }
            "d"
        }
    } else if d == 14 {
        if upper {
            proof { reveal_strlit("E"); }
            "E"
        } else {
            proof { reveal_strlit("e"); }
            "e"
        }
    } else {
        if upper {
            proof { reveal_strlit("F"); }
            "F"
        } else {
            proof { reveal_strlit("f"); }
            "f"
        }
    }
}

/// Appends the digits of `n` in `base` to `s`.
pub fn push_digits(s: &mut String, n: u64, base: u64, upper: bool)
    requires
        2 <= base <= 16,
    ensures
        final(s)@ == old(s)@ + digits(n as nat, base as nat, upper),
    decreases n,
{
    if n >= base {
        proof {
            lemma_div_decreases(n as int, base as int);
        }
        push_digits(s, n / base, base, upper);
    }
    if n < base {
        proof {
            lemma_small_mod(n as nat, base as nat);
        }
    }
    s.append(digit_str(n % base, upper));
    assert(s@ =~= old(s)@ + digits(n as nat, base as nat, upper));
}

/// A byte as exactly two hexadecimal digits, upper case.
pub open spec fn hex_byte(b: u8) -> Seq<char> {
    if b < 16 {
        seq!['0'] + hex(b as nat, true)
    } else {
        hex(b as nat, true)
    }
}

/// Appends `b` to `s` as two upper-case hexadecimal digits.
pub fn push_hex_byte(s: &mut String, b: u8)
    ensures
        final(s)@ == old(s)@ + hex_byte(b),
{
    if b < 16 {
        proof {
            reveal_strlit("0");
        }
        s.append("0");
    }
    push_digits(s, b as u64, 16, true);
    assert(s@ =~= old(s)@ + hex_byte(b));
}

} // verus!
