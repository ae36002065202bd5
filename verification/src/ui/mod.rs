//! What the terminal pages show and how they react to keys.
pub mod format;
pub mod pages;
pub mod theme;
pub mod components;
