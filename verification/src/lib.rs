//! Resolving Spotify references, expanding catalog collections into ordered
//! track lists, and accumulating canonical audio tags for two on-disk
//! encodings.

pub mod catalog;
pub mod error;
pub mod tag;
pub mod uri;
