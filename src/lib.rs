//! Locates the artifacts that a just-in-time GPU kernel compiler leaves in its
//! on-disk cache, and decodes the metadata document recorded beside each
//! compiled kernel.
pub mod cache;
pub mod discovery;
pub mod json;
pub mod kernel;
pub mod metadata;
