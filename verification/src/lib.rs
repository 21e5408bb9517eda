//! Domain and persistence-boundary core of a clip-sharing service.
//!
//! Callers submit text ("clips"), receive a short public identifier, and later
//! retrieve, update, or password-protect that content.  This crate holds the
//! validated value-type domain model and its translation boundary to and from
//! storage: the typed field constructors that enforce every invariant on a
//! [`Clip`](clip::Clip), the identifier schemes ([`DbId`](id::DbId) and
//! [`ShortCode`](shortcode::ShortCode)), and the request-to-command-to-row
//! translation pipeline.  The HTTP layer and the concrete SQL engine are
//! external collaborators.

pub mod ask;
pub mod clip;
pub mod ctx;
pub mod error;
pub mod field;
pub mod hex;
pub mod id;
pub mod model;
pub mod shortcode;
pub mod time;

pub use clip::Clip;
pub use error::ClipError;
pub use id::DbId;
pub use shortcode::ShortCode;
