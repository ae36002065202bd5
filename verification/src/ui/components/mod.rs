//! The parts drawn around the pages: tabs, status bar and help overlay.
pub mod help_bar;
pub mod status_bar;
pub mod tabs;
