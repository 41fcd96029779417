//! Client identity management: a stable per-installation identifier.
//!
//! The library decides, from the content of the identifier store, whether an
//! installation already has an identifier or needs a fresh one, validates the
//! text form of identifiers, and frames the analytics notification that
//! announces a newly created identifier.  Reading and writing the store and
//! delivering the notification are left to the surrounding application.

pub mod error;
pub mod identity;
pub mod payload;
pub mod text;
