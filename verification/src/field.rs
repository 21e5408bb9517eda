//! Field validators: one smart constructor per `Clip` attribute.
//!
//! Each field is a private-constructor wrapper around a primitive value,
//! exposing only a fallible `new` and a consuming `into_inner`.  A value is
//! validated once at the boundary and trusted thereafter: once a `Content`
//! exists, no downstream code re-checks non-emptiness.

use crate::error::ClipError;
use crate::id::{parsed_uuid, DbId};
use crate::time::Time;
use vstd::prelude::*;
use vstd::string::StrSliceExecFns;

verus! {

/// A character of the White_Space class: what separates "blank" content
/// from content with something to show.
pub open spec fn is_space(c: char) -> bool {
    c == ' ' || c == '\t' || c == '\n' || c == '\r' || c == '\u{000B}' || c == '\u{000C}'
        || c == '\u{0085}' || c == '\u{00A0}' || c == '\u{1680}' || c == '\u{2000}'
        || c == '\u{2001}' || c == '\u{2002}' || c == '\u{2003}' || c == '\u{2004}'
        || c == '\u{2005}' || c == '\u{2006}' || c == '\u{2007}' || c == '\u{2008}'
        || c == '\u{2009}' || c == '\u{200A}' || c == '\u{2028}' || c == '\u{2029}'
        || c == '\u{202F}' || c == '\u{205F}' || c == '\u{3000}'
}

/// Empty, or made of whitespace alone.
pub open spec fn is_blank(s: Seq<char>) -> bool {
    forall|i: int| 0 <= i < s.len() ==> is_space(#[trigger] s[i])
}

fn is_space_char(c: char) -> (r: bool)
    ensures
        r == is_space(c),
{
    match c {
        ' ' | '\t' | '\n' | '\r' | '\u{000B}' | '\u{000C}' | '\u{0085}' | '\u{00A0}'
        | '\u{1680}' | '\u{2000}' | '\u{2001}' | '\u{2002}' | '\u{2003}' | '\u{2004}'
        | '\u{2005}' | '\u{2006}' | '\u{2007}' | '\u{2008}' | '\u{2009}' | '\u{200A}'
        | '\u{2028}' | '\u{2029}' | '\u{202F}' | '\u{205F}' | '\u{3000}' => true,
        _ => false,
    }
}

/// The validated internal identifier field of a clip.
#[derive(Debug, Clone, Copy, PartialEq, Eq, Structural)]
pub struct ClipId {
    id: DbId,
}

impl View for ClipId {
    type V = u128;

    closed spec fn view(&self) -> u128 {
        self.id@
    }
}

impl ClipId {
    /// Parses the underlying identifier; fails on a malformed string —
    /// among others, on every string whose length fits no accepted shape.
    pub fn new(raw_id: &str) -> (r: Result<ClipId, ClipError>)
        ensures
            r is Ok <==> parsed_uuid(raw_id@) is Some,
            r matches Ok(c) ==> parsed_uuid(raw_id@) == Some(c@),
            r matches Err(e) ==> e == ClipError::InvalidId,
            r is Ok ==> (raw_id@.len() == 32 || raw_id@.len() == 36 || raw_id@.len() == 38
                || raw_id@.len() == 45),
    {
        match DbId::from_str(raw_id) {
            Ok(id) => Ok(ClipId { id }),
            Err(e) => Err(e),
        }
    }

    /// Wraps an identifier that already exists as a value.
    pub fn from_id(id: DbId) -> (c: ClipId)
        ensures
            c@ == id@,
    {
        ClipId { id }
    }

    /// Consumes the field, handing back the identifier.
    pub fn into_inner(self) -> (id: DbId)
        ensures
            id@ == self@,
    {
        self.id
    }
}

/// The validated text body of a clip: never empty, never whitespace alone.
#[derive(Debug, Clone, PartialEq, Eq)]
pub struct Content {
    text: String,
}

impl View for Content {
    type V = Seq<char>;

    closed spec fn view(&self) -> Seq<char> {
        self.text@
    }
}

impl Content {
    /// Wraps the text verbatim, or fails where it is empty or
    /// whitespace-only.  No trimming or other mutation happens.
    pub fn new(text: &str) -> (r: Result<Content, ClipError>)
        ensures
            r is Ok <==> !is_blank(text@),
            r matches Ok(c) ==> c@ == text@,
            r matches Err(e) ==> e == ClipError::EmptyContent,
    {
        let n = text.unicode_len();
        let mut i: usize = 0;
        let mut blank = true;
        while i < n
            invariant
                i <= n,
                n == text@.len(),
                blank == forall|k: int| 0 <= k < i ==> is_space(#[trigger] text@[k]),
            decreases n - i,
        {
            let space_here = is_space_char(text.get_char(i));
            blank = blank && space_here;
            i = i + 1;
        }
        if blank {
            Err(ClipError::EmptyContent)
        } else {
            Ok(Content { text: text.to_owned() })
        }
    }

    /// Consumes the field, handing back the text unchanged.
    pub fn into_inner(self) -> (s: String)
        ensures
            s@ == self@,
    {
        self.text
    }

    /// Borrows the text.
    pub fn as_str(&self) -> (s: &str)
        ensures
            s@ == self@,
    {
        self.text.as_str()
    }
}

/// The optional title of a clip; unconstrained, so construction is total.
#[derive(Debug, Clone, PartialEq, Eq)]
pub struct Title {
    title: Option<String>,
}

impl View for Title {
    type V = Option<Seq<char>>;

    closed spec fn view(&self) -> Option<Seq<char>> {
        self.title.deep_view()
    }
}

impl Title {
    /// Wraps the optional text verbatim; `None` and an empty string are
    /// both legal titles.
    pub fn new(title: Option<String>) -> (t: Title)
        ensures
            t@ == title.deep_view(),
    {
        Title { title }
    }

    /// Consumes the field, handing back the optional text.
    pub fn into_inner(self) -> (r: Option<String>)
        ensures
            r.deep_view() == self@,
    {
        self.title
    }
}

/// The optional expiry of a clip.  Accepting a past point in time is a
/// design choice, not a validation failure: expiry is evaluated at read
/// time, not at set time.
#[derive(Debug, Clone, Copy, PartialEq, Eq, Structural)]
pub struct Expires {
    when: Option<Time>,
}

/// Whether an optional expiry lies strictly before the given moment.
pub open spec fn expiry_is_past(expires: Option<int>, now: int) -> bool {
    match expires {
        Some(t) => t < now,
        None => false,
    }
}

impl View for Expires {
    type V = Option<int>;

    closed spec fn view(&self) -> Option<int> {
        match self.when {
            Some(t) => Some(t@),
            None => None,
        }
    }
}

impl Expires {
    /// Wraps the optional point in time; always succeeds structurally.
    pub fn new(when: Option<Time>) -> (e: Expires)
        ensures
            e@ == match when {
                Some(t) => Some(t@),
                None => None,
            },
    {
        Expires { when }
    }

    /// Consumes the field, handing back the optional point in time.
    pub fn into_inner(self) -> (r: Option<Time>)
        ensures
            self@ == match r {
                Some(t) => Some(t@),
                None => None,
            },
    {
        self.when
    }

    /// Whether the expiry has passed at the given moment.
    pub fn is_past(&self, now: Time) -> (r: bool)
        ensures
            r == expiry_is_past(self@, now@),
    {
        match &self.when {
            Some(t) => t.timestamp() < now.timestamp(),
            None => false,
        }
    }
}

/// The optional secret gating a clip's content.  An empty string is the
/// in-band sentinel for "no protection" and collapses to the absent state
/// at construction; a set password is kept verbatim.
#[derive(Debug, Clone, PartialEq, Eq)]
pub struct Password {
    secret: Option<String>,
}

/// Whether a candidate opens a stored password: an unset password admits
/// every candidate, a set one only its exact text.
pub open spec fn password_accepts(stored: Option<Seq<char>>, candidate: Option<Seq<char>>) -> bool {
    match stored {
        None => true,
        Some(s) => candidate == Some(s),
    }
}

impl View for Password {
    type V = Option<Seq<char>>;

    closed spec fn view(&self) -> Option<Seq<char>> {
        self.secret.deep_view()
    }
}

impl Password {
    /// Wraps a raw secret.  The empty string means "no password"; anything
    /// else is kept verbatim.  The fallible signature reserves
    /// `InvalidPassword` for a conversion scheme (such as hashing) that
    /// this core delegates to its collaborators, so construction itself
    /// always succeeds.
    pub fn new(raw: String) -> (r: Result<Password, ClipError>)
        ensures
            r is Ok,
            r matches Ok(p) ==> p@ == if raw@.len() == 0 {
                None::<Seq<char>>
            } else {
                Some(raw@)
            },
    {
        if raw.as_str().is_empty() {
            Ok(Password { secret: None })
        } else {
            Ok(Password { secret: Some(raw) })
        }
    }

    /// Whether a password is set at all.
    pub fn has_password(&self) -> (r: bool)
        ensures
            r == (self@ is Some),
    {
        match &self.secret {
            Some(_) => true,
            None => false,
        }
    }

    /// Verifies a candidate against the stored value.
    pub fn accepts(&self, candidate: Option<&str>) -> (r: bool)
        ensures
            r == password_accepts(self@, candidate.deep_view()),
    {
        match (&self.secret, candidate) {
            (None, _) => true,
            (Some(_), None) => false,
            (Some(s), Some(c)) => {
                let cand = c.to_owned();
                *s == cand
            },
        }
    }

    /// Consumes the field, handing back the optional secret.
    pub fn into_inner(self) -> (r: Option<String>)
        ensures
            r.deep_view() == self@,
    {
        self.secret
    }
}

/// The immutable creation timestamp of a clip.
#[derive(Debug, Clone, Copy, PartialEq, Eq, Structural)]
pub struct Posted {
    when: Time,
}

impl View for Posted {
    type V = int;

    closed spec fn view(&self) -> int {
        self.when@
    }
}

impl Posted {
    /// Wraps the point in time; always succeeds.
    pub fn new(when: Time) -> (p: Posted)
        ensures
            p@ == when@,
    {
        Posted { when }
    }

    /// Consumes the field, handing back the point in time.
    pub fn into_inner(self) -> (t: Time)
        ensures
            t@ == self@,
    {
        self.when
    }
}

/// The non-negative retrieval counter of a clip.
#[derive(Debug, Clone, Copy, PartialEq, Eq, Structural)]
pub struct Hits {
    count: u64,
}

impl View for Hits {
    type V = u64;

    closed spec fn view(&self) -> u64 {
        self.count
    }
}

impl Hits {
    /// Wraps a counter value; always succeeds on an unsigned count.
    pub fn new(count: u64) -> (h: Hits)
        ensures
            h@ == count,
    {
        Hits { count }
    }

    /// Converts the signed representation storage uses.  A negative stored
    /// value means corrupt data and is rejected.
    pub fn from_signed(count: i64) -> (r: Result<Hits, ClipError>)
        ensures
            r is Ok <==> count >= 0,
            r matches Ok(h) ==> h@ == count as u64,
            r matches Err(e) ==> e == ClipError::CountRangeError,
    {
        if count >= 0 {
            Ok(Hits { count: count as u64 })
        } else {
            Err(ClipError::CountRangeError)
        }
    }

    /// Consumes the field, handing back the count.
    pub fn into_inner(self) -> (n: u64)
        ensures
            n == self@,
    {
        self.count
    }
}

} // verus!
