//! Lowercase hexadecimal rendering of unsigned values, with the facts the
//! identifier types need: the rendering has a fixed width and is injective.

use vstd::arithmetic::div_mod::{lemma_fundamental_div_mod, lemma_multiply_divide_lt};
use vstd::arithmetic::power::{lemma_pow0, lemma_pow1, lemma_pow_adds, pow};
use vstd::prelude::*;
use vstd::string::StringExecFns;

verus! {

/// The lowercase hexadecimal digit character for a value below sixteen.
pub open spec fn hex_digit(d: nat) -> char {
    if d == 0 {
        '0'
    } else if d == 1 {
        '1'
    } else if d == 2 {
        '2'
    } else if d == 3 {
        '3'
    } else if d == 4 {
        '4'
    } else if d == 5 {
        '5'
    } else if d == 6 {
        '6'
    } else if d == 7 {
        '7'
    } else if d == 8 {
        '8'
    } else if d == 9 {
        '9'
    } else if d == 10 {
        'a'
    } else if d == 11 {
        'b'
    } else if d == 12 {
        'c'
    } else if d == 13 {
        'd'
    } else if d == 14 {
        'e'
    } else {
        'f'
    }
}

/// The `n`-digit lowercase hexadecimal rendering of `b`, most significant
/// digit first.  Digits beyond the value's magnitude are leading zeros.
pub open spec fn hex_seq(b: nat, n: nat) -> Seq<char>
    decreases n,
{
    if n == 0 {
        Seq::empty()
    } else {
        hex_seq(b / 16, (n - 1) as nat).push(hex_digit(b % 16))
    }
}

pub proof fn lemma_hex_seq_len(b: nat, n: nat)
    ensures
        hex_seq(b, n).len() == n,
    decreases n,
{
    if n > 0 {
        lemma_hex_seq_len(b / 16, (n - 1) as nat);
    }
}

proof fn lemma_hex_digit_injective(d1: nat, d2: nat)
    requires
        d1 < 16,
        d2 < 16,
        hex_digit(d1) == hex_digit(d2),
    ensures
        d1 == d2,
{
}

/// Two values below `16^n` with the same `n`-digit rendering are equal.
pub proof fn lemma_hex_seq_injective(b1: nat, b2: nat, n: nat)
    requires
        b1 < pow(16, n),
        b2 < pow(16, n),
        hex_seq(b1, n) == hex_seq(b2, n),
    ensures
        b1 == b2,
    decreases n,
{
    if n == 0 {
        lemma_pow0(16);
    } else {
        let m = (n - 1) as nat;
        lemma_hex_seq_len(b1 / 16, m);
        lemma_hex_seq_len(b2 / 16, m);
        let s1 = hex_seq(b1, n);
        let s2 = hex_seq(b2, n);
        assert(s1.last() == hex_digit(b1 % 16));
        assert(s2.last() == hex_digit(b2 % 16));
        lemma_hex_digit_injective(b1 % 16, b2 % 16);
        assert(s1.drop_last() =~= hex_seq(b1 / 16, m));
        assert(s2.drop_last() =~= hex_seq(b2 / 16, m));
        lemma_pow1(16);
        lemma_pow_adds(16, 1, m);
        assert(pow(16, n) == 16 * pow(16, m));
        lemma_multiply_divide_lt(b1 as int, 16, pow(16, m));
        lemma_multiply_divide_lt(b2 as int, 16, pow(16, m));
        lemma_hex_seq_injective(b1 / 16, b2 / 16, m);
        lemma_fundamental_div_mod(b1 as int, 16);
        lemma_fundamental_div_mod(b2 as int, 16);
    }
}

/// The powers of sixteen that bound a 64-bit and a 128-bit value.
pub proof fn lemma_pow_16_widths()
    ensures
        pow(16, 16) == 0x1_0000_0000_0000_0000,
        pow(16, 32) == 0x1_0000_0000_0000_0000_0000_0000_0000_0000,
{
    lemma_pow1(16);
    lemma_pow_adds(16, 1, 1);
    assert(pow(16, 2) == 0x100);
    lemma_pow_adds(16, 2, 2);
    assert(pow(16, 4) == 0x1_0000);
    lemma_pow_adds(16, 4, 4);
    assert(pow(16, 8) == 0x1_0000_0000);
    lemma_pow_adds(16, 8, 8);
    assert(pow(16, 16) == 0x1_0000_0000_0000_0000);
    lemma_pow_adds(16, 16, 16);
}

fn hex_digit_str(d: u8) -> (r: &'static str)
    requires
        d < 16,
    ensures
        r@ =~= seq![hex_digit(d as nat)],
{
    proof {
        reveal_strlit("0");
        reveal_strlit("1");
        reveal_strlit("2");
        reveal_strlit("3");
        reveal_strlit("4");
        reveal_strlit("5");
        reveal_strlit("6");
        reveal_strlit("7");
        reveal_strlit("8");
        reveal_strlit("9");
        reveal_strlit("a");
        reveal_strlit("b");
        reveal_strlit("c");
        reveal_strlit("d");
        reveal_strlit("e");
        reveal_strlit("f");
    }
    match d {
        0 => "0",
        1 => "1",
        2 => "2",
        3 => "3",
        4 => "4",
        5 => "5",
        6 => "6",
        7 => "7",
        8 => "8",
        9 => "9",
        10 => "a",
        11 => "b",
        12 => "c",
        13 => "d",
        14 => "e",
        _ => "f",
    }
}

/// Renders the low `n` hexadecimal digits of `b`, most significant first.
pub fn hex_string(b: u128, n: usize) -> (s: String)
    ensures
        s@ == hex_seq(b as nat, n as nat),
    decreases n,
{
    if n == 0 {
        let s = String::new();
        proof {
            assert(s@ =~= hex_seq(b as nat, 0));
        }
        s
    } else {
        let mut s = hex_string(b / 16, n - 1);
        let digit = hex_digit_str((b % 16) as u8);
        s.append(digit);
        proof {
            assert(s@ =~= hex_seq(b as nat, n as nat));
        }
        s
    }
}

} // verus!
