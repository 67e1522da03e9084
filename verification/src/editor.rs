//! Editors: widgets that take input events and change what they hold.
pub mod text;
