//! Merge per-locale string resources of application bundles into search
//! documents, and build and read the faceted queries that search them.

pub mod error;
pub mod es;
pub mod json;
pub mod locales;
pub mod lproj;
pub mod pairs;
pub mod text;
pub mod search;
pub mod source;
