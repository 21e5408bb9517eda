//! The clip aggregate: validated fields assembled into the unit of
//! business meaning, plus the read-time access rules on it.

use crate::error::ClipError;
use crate::field::{
    expiry_is_past, is_blank, password_accepts, ClipId, Content, Expires, Hits, Password, Posted,
    Title,
};
use crate::id::parsed_uuid;
use crate::model::PersistedRow;
use crate::shortcode::ShortCode;
use crate::time::Time;
use vstd::prelude::*;

verus! {

/// A fully validated clip.  Every field already satisfies its invariant:
/// the aggregate is only assembled through [`Clip::try_from`], which
/// re-validates a raw stored row and never produces a partial value.
#[derive(Debug)]
pub struct Clip {
    pub clip_id: ClipId,
    pub shortcode: ShortCode,
    pub content: Content,
    pub title: Title,
    pub expires: Expires,
    pub password: Password,
    pub posted: Posted,
    pub hits: Hits,
}

/// The outcome of a retrieval attempt against a clip.
#[derive(Debug, Clone, Copy, PartialEq, Eq, Structural)]
pub enum RetrievalOutcome {
    /// The clip's expiry has passed: access is denied regardless of any
    /// password state.
    Denied,
    /// A password is set and the candidate did not open it: only the
    /// shortcode may be shown, never the content.
    NeedsPassword,
    /// The content may be handed to the presentation layer.
    Granted,
}

impl Clip {
    /// Assembles a clip from a raw stored row, re-validating every field:
    /// data coming out of storage is not trusted to satisfy the invariants.
    /// The first failing field aborts the whole conversion — a malformed
    /// identifier, then blank content, then a negative hit count — so a
    /// corrupt row is rejected and no partial clip is ever produced.
    pub fn try_from(row: PersistedRow) -> (r: Result<Clip, ClipError>)
        ensures
            r is Ok <==> (parsed_uuid(row.clip_id@) is Some && !is_blank(row.content@)
                && row.hits >= 0),
            parsed_uuid(row.clip_id@) is None ==> r == Err::<Clip, ClipError>(
                ClipError::InvalidId,
            ),
            (parsed_uuid(row.clip_id@) is Some && is_blank(row.content@)) ==> r == Err::<
                Clip,
                ClipError,
            >(ClipError::EmptyContent),
            (parsed_uuid(row.clip_id@) is Some && !is_blank(row.content@) && row.hits < 0)
                ==> r == Err::<Clip, ClipError>(ClipError::CountRangeError),
            r matches Ok(clip) ==> {
                &&& parsed_uuid(row.clip_id@) == Some(clip.clip_id@)
                &&& clip.shortcode@ == row.shortcode@
                &&& clip.content@ == row.content@
                &&& clip.title@ == row.title.deep_view()
                &&& clip.expires@ == (match row.expires {
                    Some(t) => Some(t as int),
                    None => None::<int>,
                })
                &&& clip.password@ == (match row.password {
                    Some(p) => if p@.len() == 0 {
                        None::<Seq<char>>
                    } else {
                        Some(p@)
                    },
                    None => None::<Seq<char>>,
                })
                &&& clip.posted@ == row.posted as int
                &&& clip.hits@ == row.hits as u64
            },
    {
        let clip_id = match ClipId::new(row.clip_id.as_str()) {
            Ok(id) => id,
            Err(e) => {
                return Err(e);
            },
        };
        let content = match Content::new(row.content.as_str()) {
            Ok(c) => c,
            Err(e) => {
                return Err(e);
            },
        };
        let raw_password = match row.password {
            Some(p) => p,
            None => String::new(),
        };
        let password = match Password::new(raw_password) {
            Ok(p) => p,
            Err(e) => {
                return Err(e);
            },
        };
        let hits = match Hits::from_signed(row.hits) {
            Ok(h) => h,
            Err(e) => {
                return Err(e);
            },
        };
        let expires = Expires::new(
            match row.expires {
                Some(t) => Some(Time::from_timestamp(t)),
                None => None,
            },
        );
        Ok(
            Clip {
                clip_id,
                shortcode: ShortCode::from_string(row.shortcode),
                content,
                title: Title::new(row.title),
                expires,
                password,
                posted: Posted::new(Time::from_timestamp(row.posted)),
                hits,
            },
        )
    }

    /// Decides a retrieval attempt at the moment `now`, with the caller's
    /// optional candidate password.  A passed expiry denies access
    /// outright; otherwise a set password must be opened by the candidate
    /// before content may be shown.
    pub fn retrieval_outcome(&self, now: Time, candidate: Option<&str>) -> (r: RetrievalOutcome)
        ensures
            expiry_is_past(self.expires@, now@) ==> r == RetrievalOutcome::Denied,
            (!expiry_is_past(self.expires@, now@) && !password_accepts(
                self.password@,
                candidate.deep_view(),
            )) ==> r == RetrievalOutcome::NeedsPassword,
            (!expiry_is_past(self.expires@, now@) && password_accepts(
                self.password@,
                candidate.deep_view(),
            )) ==> r == RetrievalOutcome::Granted,
    {
        if self.expires.is_past(now) {
            RetrievalOutcome::Denied
        } else if self.password.accepts(candidate) {
            RetrievalOutcome::Granted
        } else {
            RetrievalOutcome::NeedsPassword
        }
    }
}

} // verus!
