//! Clash TUI: the decisions of a terminal client for mihomo (Clash), verified.
pub mod app;
pub mod clash;
pub mod text;
pub mod proxy;
pub mod subscription;
pub mod ui;
pub mod config;
pub mod core_manager;
pub mod state;
pub mod event;
pub mod hotkey;
pub mod ipc;
pub mod launch;
pub mod yaml;
