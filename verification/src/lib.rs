//! Flattening of richly tagged music-track and playlist records into simple
//! domain records, together with a guarded updater for a collection's root
//! storage location.
//!
//! The normalization rules (artist precedence, title precedence, genre facet
//! extraction, earliest-year selection, duration rounding and clamping) are
//! stated as contracts and verified. Conversion of a content locator to a
//! local file path is delegated to the `url` crate behind trusted wrappers.

pub mod collection;
pub mod import;
pub mod locator;
pub mod model;
pub mod normalize;
pub mod settings;
