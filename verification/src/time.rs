//! Points in time, carried as whole seconds since the Unix epoch.
//!
//! The storage schema and the persistence commands exchange timestamps as
//! plain signed epoch values, so the core models a point in time the same
//! way; the calendar library that renders or parses dates stays outside.

use vstd::prelude::*;

verus! {

/// A point in time: whole seconds since the Unix epoch.
#[derive(Debug, Clone, Copy, PartialEq, Eq, Structural)]
pub struct Time {
    secs: i64,
}

impl View for Time {
    type V = int;

    closed spec fn view(&self) -> int {
        self.secs as int
    }
}

impl Time {
    /// Wraps an epoch value unchanged.
    pub fn from_timestamp(secs: i64) -> (t: Time)
        ensures
            t@ == secs as int,
    {
        Time { secs }
    }

    /// The epoch value carried by this point in time.
    pub fn timestamp(&self) -> (r: i64)
        ensures
            r as int == self@,
    {
        self.secs
    }
}

} // verus!
