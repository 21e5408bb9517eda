//! Application-level requests, as the calling layer hands them in: already
//! validated field by field, not yet translated into persistence commands.

use crate::field::{Content, Expires, Password, Title};
use crate::shortcode::ShortCode;
use vstd::prelude::*;

verus! {

/// A request to retrieve the clip behind a shortcode.
#[derive(Debug, Clone, PartialEq, Eq)]
pub struct GetClip {
    pub shortcode: ShortCode,
}

/// A request to create a clip from validated fields.  Identity is
/// server-assigned: the translation layer mints the identifiers.
#[derive(Debug)]
pub struct NewClip {
    pub content: Content,
    pub title: Title,
    pub expires: Expires,
    pub password: Password,
}

/// A request to update the clip behind a shortcode with validated fields.
#[derive(Debug)]
pub struct UpdateClip {
    pub shortcode: ShortCode,
    pub content: Content,
    pub title: Title,
    pub expires: Expires,
    pub password: Password,
}

} // verus!
