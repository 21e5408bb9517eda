//! The public identity of a clip: the short string shown in URLs.
//!
//! A code is either adopted verbatim from a caller (to address an existing
//! clip) or generated fresh from random bits.  Freshly generated codes
//! encode 64 random bits as 16 lowercase hexadecimal digits; the encoding
//! is proved injective, so distinct bits never collide on the code.
//! Uniqueness across all stored clips is enforced by the storage layer's
//! uniqueness constraint, with generation retried on conflict.

use crate::hex::{hex_seq, hex_string, lemma_hex_seq_injective, lemma_hex_seq_len, lemma_pow_16_widths};
use crate::id::fresh_id_bits;
use vstd::prelude::*;

verus! {

/// The 16-digit lowercase hexadecimal code for 64 bits.
pub open spec fn code_of_bits(b: u64) -> Seq<char> {
    hex_seq(b as nat, 16)
}

/// The public, short, unique identifier used to address a clip externally.
#[derive(Debug, Clone, PartialEq, Eq)]
pub struct ShortCode {
    code: String,
}

impl View for ShortCode {
    type V = Seq<char>;

    closed spec fn view(&self) -> Seq<char> {
        self.code@
    }
}

impl ShortCode {
    /// Adopts a caller-supplied code verbatim; no validation beyond the
    /// string being present.
    pub fn from_string(code: String) -> (c: ShortCode)
        ensures
            c@ == code@,
    {
        ShortCode { code }
    }

    /// Encodes the given bits as their 16-digit code.
    pub(crate) fn from_bits(b: u64) -> (c: ShortCode)
        ensures
            c@ == code_of_bits(b),
    {
        let code = hex_string(b as u128, 16);
        ShortCode { code }
    }

    /// Generates a fresh code from fresh random bits.  The bits are
    /// random, so nothing more is promised of the code than its shape:
    /// the encoding of some nonzero 64-bit value.
    pub fn generate() -> (c: ShortCode)
        ensures
            exists|b: u64| b != 0 && c@ == code_of_bits(b),
            c@.len() == 16,
    {
        let bits = fresh_id_bits();
        let low = (bits % 0x1_0000_0000_0000_0000) as u64;
        let c = ShortCode::from_bits(low);
        proof {
            lemma_hex_seq_len(low as nat, 16);
        }
        c
    }

    /// Consumes the code, handing back the bare string.
    pub fn into_inner(self) -> (s: String)
        ensures
            s@ == self@,
    {
        self.code
    }

    /// Borrows the code's text.
    pub fn as_str(&self) -> (s: &str)
        ensures
            s@ == self@,
    {
        self.code.as_str()
    }
}

/// Distinct bits encode to distinct codes: the code rendering is injective.
pub proof fn lemma_code_of_bits_injective(b1: u64, b2: u64)
    requires
        code_of_bits(b1) == code_of_bits(b2),
    ensures
        b1 == b2,
{
    lemma_pow_16_widths();
    lemma_hex_seq_injective(b1 as nat, b2 as nat, 16);
}

} // verus!
