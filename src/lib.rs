//! Extraction of class documentation from line-oriented annotation comments.
//!
//! Lines are classified one at a time by `pattern`, folded through the
//! per-file state machine of `scanner`, and the finished class records are
//! turned into text tables by `render`.

pub mod laws;
pub mod model;
pub mod pattern;
pub mod render;
pub mod scanner;
pub mod text;
