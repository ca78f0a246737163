//! Language detection, test-file classification and ignore rules for a
//! source indexer.

pub mod languages;
pub mod paths;
pub mod text;
pub mod laws;
pub mod tables;
