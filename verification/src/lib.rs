//! A typed multi-collection cache with atomic full-refresh and relation
//! resolution.
//!
//! The crate holds one typed collection per entity kind, serves point and
//! bulk lookups, replaces a whole collection atomically when fresh data
//! arrives, and resolves cross-entity relations while breaking the
//! reference cycle between people and groups so that serialized output
//! terminates.

pub mod cache;
pub mod client;
pub mod decode;
pub mod laws;
pub mod model;
pub mod raw;
pub mod types;
