//! The translation boundary to and from storage: the raw row shape the
//! backing store hands out, and the commands the persistence gateway
//! accepts.

use crate::ask;
use crate::id::{canonical_id_str, lemma_canonical_id_injective, DbId};
use crate::shortcode::{code_of_bits, ShortCode};
use crate::time::Time;
use vstd::prelude::*;

verus! {

/// A raw stored row, exactly as the backing store returns it: every field
/// still untrusted.  It becomes a [`Clip`](crate::clip::Clip) only through
/// [`Clip::try_from`](crate::clip::Clip::try_from), which re-validates
/// each field.
#[derive(Debug, Clone, PartialEq, Eq)]
pub struct PersistedRow {
    /// String-encoded internal identifier.
    pub clip_id: String,
    /// The public shortcode.
    pub shortcode: String,
    /// The text body.
    pub content: String,
    /// Nullable title text.
    pub title: Option<String>,
    /// Nullable expiry, as whole seconds since the Unix epoch.
    pub expires: Option<i64>,
    /// Nullable password; the empty string also means "unset".
    pub password: Option<String>,
    /// Creation time, as whole seconds since the Unix epoch.
    pub posted: i64,
    /// Signed retrieval counter; negative values mean corrupt data.
    pub hits: i64,
}

/// The command that fetches a clip by its shortcode.  Pure data: no
/// validation beyond the string being present.
#[derive(Debug, Clone, PartialEq, Eq)]
pub struct GetClip {
    pub shortcode: String,
}

impl GetClip {
    /// Carries an application-level retrieval request over unchanged.
    pub fn from_ask(req: ask::GetClip) -> (r: GetClip)
        ensures
            r.shortcode@ == req.shortcode@,
    {
        GetClip { shortcode: req.shortcode.into_inner() }
    }

    /// Addresses the clip behind an existing shortcode.
    pub fn from_shortcode(shortcode: ShortCode) -> (r: GetClip)
        ensures
            r.shortcode@ == shortcode@,
    {
        GetClip { shortcode: shortcode.into_inner() }
    }

    /// Adopts a raw string verbatim.
    pub fn from_raw(shortcode: String) -> (r: GetClip)
        ensures
            r.shortcode@ == shortcode@,
    {
        GetClip { shortcode }
    }
}

/// The command that inserts a fresh clip.  Identity is server-assigned:
/// both identifiers are minted here, never taken from the caller.
#[derive(Debug, Clone, PartialEq, Eq)]
pub struct NewClip {
    pub clip_id: String,
    pub shortcode: String,
    pub content: String,
    pub title: Option<String>,
    /// Nullable expiry as a raw epoch value.
    pub expires: Option<i64>,
    pub password: Option<String>,
    /// Creation time as a raw epoch value.
    pub posted: i64,
}

impl NewClip {
    /// Translates an application-level creation request: mints a fresh
    /// `clip_id` and a fresh `shortcode`, copies the validated fields
    /// verbatim, converts the optional expiry to its raw epoch value, and
    /// stamps `posted` with `now` — the moment of translation, which the
    /// caller reads from its clock, not the moment the request was made.
    /// The identifiers are random, so nothing is promised of their values
    /// beyond their shape: renderings of nonzero bits, so the `clip_id`
    /// is never the nil sentinel's rendering.
    pub fn from_ask(req: ask::NewClip, now: Time) -> (r: NewClip)
        ensures
            exists|b: u128| b != 0 && r.clip_id@ == canonical_id_str(b),
            r.clip_id@ != canonical_id_str(0u128),
            exists|b: u64| b != 0 && r.shortcode@ == code_of_bits(b),
            r.posted as int == now@,
            r.content@ == req.content@,
            r.title.deep_view() == req.title@,
            (match r.expires {
                Some(t) => Some(t as int),
                None => None::<int>,
            }) == req.expires@,
            r.password.deep_view() == req.password@,
    {
        let id = DbId::new();
        let clip_id = id.to_string();
        proof {
            if clip_id@ == canonical_id_str(0u128) {
                lemma_canonical_id_injective(id@, 0u128);
            }
        }
        let expires = match req.expires.into_inner() {
            Some(t) => Some(t.timestamp()),
            None => None,
        };
        NewClip {
            clip_id,
            shortcode: ShortCode::generate().into_inner(),
            content: req.content.into_inner(),
            title: req.title.into_inner(),
            expires,
            password: req.password.into_inner(),
            posted: now.timestamp(),
        }
    }
}

/// The command that updates the clip behind a shortcode.  The shortcode is
/// the clip's public identity, so it is threaded through unchanged from
/// the caller's target; only content, title, expiry and password change.
#[derive(Debug, Clone, PartialEq, Eq)]
pub struct UpdateClip {
    pub shortcode: String,
    pub content: String,
    pub title: Option<String>,
    /// Nullable expiry as a raw epoch value.
    pub expires: Option<i64>,
    pub password: Option<String>,
}

impl UpdateClip {
    /// Translates an application-level update request, preserving the
    /// target's shortcode and copying the validated fields verbatim.
    pub fn from_ask(req: ask::UpdateClip) -> (r: UpdateClip)
        ensures
            r.shortcode@ == req.shortcode@,
            r.content@ == req.content@,
            r.title.deep_view() == req.title@,
            (match r.expires {
                Some(t) => Some(t as int),
                None => None::<int>,
            }) == req.expires@,
            r.password.deep_view() == req.password@,
    {
        let expires = match req.expires.into_inner() {
            Some(t) => Some(t.timestamp()),
            None => None,
        };
        UpdateClip {
            shortcode: req.shortcode.into_inner(),
            content: req.content.into_inner(),
            title: req.title.into_inner(),
            expires,
            password: req.password.into_inner(),
        }
    }
}

} // verus!
