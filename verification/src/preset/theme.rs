//! How the prompts look unless told otherwise.
pub mod tree;
