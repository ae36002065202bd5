//! What the user asks for: keys and the actions they map to.
pub mod action;
pub mod keymap;
