//! What packages exist and what they depend on.
pub mod error;
pub mod model;
pub mod source;
