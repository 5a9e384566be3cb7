//! Split-direction permission sets for a window-docking layout.
//!
//! A docking engine asks, before it splits a panel, whether the requested
//! direction is allowed for that panel.  [`AllowedSplits`] answers that
//! question: it is a small value type holding one permission flag per split
//! direction (left, right, top, bottom), with set algebra (union and
//! intersection), named presets, and per-direction queries.

pub mod allowed_splits;
pub mod laws;
pub mod presets;

pub use allowed_splits::AllowedSplits;
pub use allowed_splits::InvalidEncoding;
pub use allowed_splits::Split;
