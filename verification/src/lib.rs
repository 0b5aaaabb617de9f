//! Enriched error values with a context trail, a capture site, a stack
//! snapshot and optional classification fields, together with a few small
//! string and identifier utilities.

pub mod errorsx;
pub mod stringsx;
pub mod uuidx;
