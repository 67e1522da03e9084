//! Prompts put together from the widgets of this crate.
pub mod checkbox;
pub mod listbox;
pub mod readline;
pub mod theme;
pub mod tree;
