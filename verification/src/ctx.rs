//! Rendering contexts handed to the presentation layer.
//!
//! The types encode the presentation contract: a fully validated clip is
//! required to render a "view clip" page, while a "password required" page
//! carries only the shortcode — content never reaches the presentation
//! layer before password verification succeeds.

use crate::clip::Clip;
use crate::shortcode::ShortCode;
use vstd::prelude::*;

verus! {

/// What every page context tells the template engine about itself.
pub trait PageContext {
    /// The page's title.
    fn title(&self) -> &str;

    /// The template that renders the page.
    fn template_path(&self) -> &str;

    /// The layout template the page nests in.
    fn parent(&self) -> &str;
}

/// The home page: no data beyond the page itself.
#[derive(Debug, Default)]
pub struct Home {}

impl PageContext for Home {
    fn template_path(&self) -> (r: &str)
        ensures
            r@ == "home"@,
    {
        "home"
    }

    fn title(&self) -> (r: &str)
        ensures
            r@ == "Stash Your Clipboard!"@,
    {
        "Stash Your Clipboard!"
    }

    fn parent(&self) -> (r: &str)
        ensures
            r@ == "base"@,
    {
        "base"
    }
}

/// The page showing a clip; requires the fully validated aggregate.
#[derive(Debug)]
pub struct ViewClip {
    pub clip: Clip,
}

impl ViewClip {
    /// Wraps the clip to show.
    pub fn new(clip: Clip) -> (c: ViewClip)
        ensures
            c.clip == clip,
    {
        ViewClip { clip }
    }
}

impl PageContext for ViewClip {
    fn template_path(&self) -> (r: &str)
        ensures
            r@ == "clip"@,
    {
        "clip"
    }

    fn title(&self) -> (r: &str)
        ensures
            r@ == "View Clip"@,
    {
        "View Clip"
    }

    fn parent(&self) -> (r: &str)
        ensures
            r@ == "base"@,
    {
        "base"
    }
}

/// The page asking for a clip's password; carries only the shortcode, so
/// protected content cannot leak through it.
#[derive(Debug)]
pub struct PasswordRequired {
    pub shortcode: ShortCode,
}

impl PasswordRequired {
    /// Wraps the shortcode of the protected clip.
    pub fn new(shortcode: ShortCode) -> (c: PasswordRequired)
        ensures
            c.shortcode == shortcode,
    {
        PasswordRequired { shortcode }
    }
}

impl PageContext for PasswordRequired {
    fn template_path(&self) -> (r: &str)
        ensures
            r@ == "clip_need_password"@,
    {
        "clip_need_password"
    }

    fn title(&self) -> (r: &str)
        ensures
            r@ == "Password required"@,
    {
        "Password required"
    }

    fn parent(&self) -> (r: &str)
        ensures
            r@ == "base"@,
    {
        "base"
    }
}

} // verus!
