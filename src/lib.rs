//! Source resolution and synchronisation for importing syndicated audio
//! content into a lesson catalog.
//!
//! The library normalises feed formats into one item model, decides for each
//! item how its audio link is found, filters items against the titles that
//! the catalog already holds, and plans the synchronisation of each source.
pub mod source;
pub mod fetch;
pub mod config;
pub mod sync;
pub mod lingq;
