//! The internal identity of a clip: a 128-bit value with a canonical
//! hyphenated string form.
//!
//! Generation and parsing go through the `uuid` crate; the canonical
//! rendering is computed and proved here, so that a parsed canonical string
//! round-trips losslessly.

use crate::error::ClipError;
use crate::hex::{hex_seq, hex_string, lemma_hex_seq_injective, lemma_hex_seq_len};
use vstd::prelude::*;
use vstd::string::StringExecFns;
use vstd::string::StrSliceExecFns;

verus! {

/// What `uuid::Uuid::parse_str` yields on a given string: the parsed
/// 128-bit value (big-endian byte order), or `None` where the string is
/// malformed.  The result depends on the characters alone.
pub uninterp spec fn parsed_uuid(s: Seq<char>) -> Option<u128>;

/// The canonical hyphenated lowercase rendering of a 128-bit identifier:
/// 32 hexadecimal digits, most significant first, grouped 8-4-4-4-12.
pub open spec fn canonical_id_str(b: u128) -> Seq<char> {
    let d = hex_seq(b as nat, 32);
    d.subrange(0, 8) + seq!['-'] + d.subrange(8, 12) + seq!['-'] + d.subrange(12, 16)
        + seq!['-'] + d.subrange(16, 20) + seq!['-'] + d.subrange(20, 32)
}

/// Relies on `uuid::Uuid::parse_str` (with `Uuid::as_u128` converting the
/// result): it accepts a hexadecimal identifier in a fixed set of shapes —
/// 32 bare digits, the 36-character hyphenated form, 38 characters when
/// braced, 45 with a URN prefix — and in particular maps the canonical
/// hyphenated lowercase rendering of a value back to that value.
#[verifier::external_body]
fn parse_uuid(s: &str) -> (r: Option<u128>)
    ensures
        r == parsed_uuid(s@),
        forall|b: u128| s@ == canonical_id_str(b) ==> r == Some(b),
        r is Some ==> (s@.len() == 32 || s@.len() == 36 || s@.len() == 38 || s@.len() == 45),
{
    match uuid::Uuid::parse_str(s) {
        Ok(u) => Some(u.as_u128()),
        Err(_) => None,
    }
}

/// Relies on `uuid::Uuid::new_v4` (with `Uuid::as_u128` converting the
/// result) for a freshly generated random identifier.  The value is random,
/// so almost nothing is assumed of it; but the generator masks a fixed
/// version bit into the high 64 bits and a fixed variant bit into the low
/// 64 bits of every outcome, so neither half is ever zero.
#[verifier::external_body]
pub(crate) fn fresh_id_bits() -> (r: u128)
    ensures
        r != 0,
        r % 0x1_0000_0000_0000_0000 != 0,
{
    uuid::Uuid::new_v4().as_u128()
}

/// The internal identity of a clip.  Wraps a 128-bit value; fresh values
/// are random, and a distinguished nil value exists for sentinel use.
/// Immutable once created; equality is by value.
#[derive(Debug, Clone, Copy, PartialEq, Eq, Structural)]
pub struct DbId {
    bits: u128,
}

impl View for DbId {
    type V = u128;

    closed spec fn view(&self) -> u128 {
        self.bits
    }
}

impl DbId {
    /// Generates a fresh random identifier.  The value is random, so
    /// nothing more is promised of it than that it never equals the nil
    /// sentinel.
    pub fn new() -> (id: DbId)
        ensures
            id@ != 0u128,
    {
        DbId { bits: fresh_id_bits() }
    }

    /// The fixed all-zero sentinel, never assigned to a real entity.
    pub fn nil() -> (id: DbId)
        ensures
            id@ == 0u128,
    {
        DbId { bits: 0 }
    }

    /// Wraps bits that already came out of a successful parse.
    pub(crate) fn from_bits(bits: u128) -> (id: DbId)
        ensures
            id@ == bits,
    {
        DbId { bits }
    }

    /// Parses the canonical string form; fails on malformed input.
    /// Succeeds exactly where the underlying parser does — only on the
    /// accepted shapes, whose lengths are fixed — and on the canonical
    /// rendering of any value yields exactly that value.
    pub fn from_str(s: &str) -> (r: Result<DbId, ClipError>)
        ensures
            r is Ok <==> parsed_uuid(s@) is Some,
            r matches Ok(id) ==> parsed_uuid(s@) == Some(id@),
            r matches Err(e) ==> e == ClipError::InvalidId,
            forall|b: u128| s@ == canonical_id_str(b) ==> (r matches Ok(id) && id@ == b),
            r is Ok ==> (s@.len() == 32 || s@.len() == 36 || s@.len() == 38 || s@.len() == 45),
    {
        match parse_uuid(s) {
            Some(bits) => Ok(DbId { bits }),
            None => Err(ClipError::InvalidId),
        }
    }

    /// The canonical hyphenated lowercase string form; total and lossless.
    pub fn to_string(&self) -> (s: String)
        ensures
            s@ == canonical_id_str(self@),
    {
        proof {
            lemma_hex_seq_len(self.bits as nat, 32);
            reveal_strlit("-");
        }
        let digits = hex_string(self.bits, 32);
        let d = digits.as_str();
        let mut s = String::new();
        s.append(d.substring_char(0, 8));
        s.append("-");
        s.append(d.substring_char(8, 12));
        s.append("-");
        s.append(d.substring_char(12, 16));
        s.append("-");
        s.append(d.substring_char(16, 20));
        s.append("-");
        s.append(d.substring_char(20, 32));
        proof {
            assert(s@ =~= canonical_id_str(self@));
        }
        s
    }
}

impl Default for DbId {
    /// A fresh random identifier; the value is random, so nothing more is
    /// promised of it than that it never equals the nil sentinel.
    fn default() -> (id: DbId)
        ensures
            id@ != 0u128,
    {
        DbId::new()
    }
}

/// Distinct identifier values have distinct canonical string forms: the
/// canonical rendering is injective.
pub proof fn lemma_canonical_id_injective(b1: u128, b2: u128)
    requires
        canonical_id_str(b1) == canonical_id_str(b2),
    ensures
        b1 == b2,
{
    let d1 = hex_seq(b1 as nat, 32);
    let d2 = hex_seq(b2 as nat, 32);
    lemma_hex_seq_len(b1 as nat, 32);
    lemma_hex_seq_len(b2 as nat, 32);
    assert forall|i: int| 0 <= i < 32 implies d1[i] == d2[i] by {
        let s1 = canonical_id_str(b1);
        let s2 = canonical_id_str(b2);
        let j = if i < 8 {
            i
        } else if i < 12 {
            i + 1
        } else if i < 16 {
            i + 2
        } else if i < 20 {
            i + 3
        } else {
            i + 4
        };
        assert(s1[j] == d1[i]);
        assert(s2[j] == d2[i]);
    }
    assert(d1 =~= d2);
    crate::hex::lemma_pow_16_widths();
    lemma_hex_seq_injective(b1 as nat, b2 as nat, 32);
}

} // verus!
