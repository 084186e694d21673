//! Incremental compilation of regular-expression patterns and a structural
//! renderer for their parsed syntax trees.

pub mod text;
pub mod tree;
pub mod render;
pub mod matcher;
pub mod cache;
