//! Decimal rendering of track and disc numbers, as used in output filenames
//! and in metadata values.

use vstd::prelude::*;
use vstd::string::StringExecFns;

verus! {

/// The character for a single decimal digit.
pub open spec fn digit_char(d: nat) -> char
    recommends
        d < 10,
{
    if d == 0 {
        '0'
    } else if d == 1 {
        '1'
    } else if d == 2 {
        '2'
    } else if d == 3 {
        '3'
    } else if d == 4 {
        '4'
    } else if d == 5 {
        '5'
    } else if d == 6 {
        '6'
    } else if d == 7 {
        '7'
    } else if d == 8 {
        '8'
    } else {
        '9'
    }
}

/// The usual decimal rendering of a natural number, without padding or sign.
pub open spec fn dec_str(n: nat) -> Seq<char>
    decreases n,
{
    if n < 10 {
        seq![digit_char(n)]
    } else {
        dec_str(n / 10) + seq![digit_char(n % 10)]
    }
}

/// Decimal rendering padded on the left with '0' to at least two digits.
pub open spec fn pad2_str(n: nat) -> Seq<char> {
    if n < 10 {
        seq!['0'] + dec_str(n)
    } else {
        dec_str(n)
    }
}

pub proof fn lemma_dec_str_nonempty(n: nat)
    ensures
        dec_str(n).len() >= 1,
{
}

pub proof fn lemma_dec_str_ascii(n: nat)
    ensures
        crate::seq_is_ascii(dec_str(n)),
    decreases n,
{
    if n < 10 {
    } else {
        lemma_dec_str_ascii(n / 10);
    }
}

pub proof fn lemma_pad2_ascii(n: nat)
    ensures
        crate::seq_is_ascii(pad2_str(n)),
        pad2_str(n).len() >= 2,
{
    lemma_dec_str_ascii(n);
    lemma_dec_str_nonempty(n);
    if n >= 10 {
        lemma_dec_str_nonempty(n / 10);
    }
}

/// A one-character string for a decimal digit.
fn digit_literal(d: u32) -> (s: &'static str)
    requires
        d < 10,
    ensures
        s@ == seq![digit_char(d as nat)],
{
    proof {
        reveal_strlit("0");
        reveal_strlit("1");
        reveal_strlit("2");
        reveal_strlit("3");
        reveal_strlit("4");
        reveal_strlit("5");
        reveal_strlit("6");
        reveal_strlit("7");
        reveal_strlit("8");
        reveal_strlit("9");
    }
    match d {
        0 => "0",
        1 => "1",
        2 => "2",
        3 => "3",
        4 => "4",
        5 => "5",
        6 => "6",
        7 => "7",
        8 => "8",
        _ => "9",
    }
}

/// Renders a number in decimal, matching `dec_str`.
pub fn u32_to_dec(n: u32) -> (s: String)
    ensures
        s@ == dec_str(n as nat),
    decreases n,
{
    if n < 10 {
        String::from_str(digit_literal(n))
    } else {
        assert(n / 10 < n && n / 10 >= 1) by (nonlinear_arith)
            requires
                n >= 10,
        ;
        let mut s = u32_to_dec(n / 10);
        s.append(digit_literal(n % 10));
        s
    }
}

/// Renders a number in decimal, zero-padded to at least two digits,
/// matching `pad2_str`.
pub fn u32_to_pad2(n: u32) -> (s: String)
    ensures
        s@ == pad2_str(n as nat),
{
    if n < 10 {
        proof {
            reveal_strlit("0");
        }
        let mut s = String::from_str("0");
        let d = u32_to_dec(n);
        s.append(d.as_str());
        s
    } else {
        u32_to_dec(n)
    }
}

} // verus!
