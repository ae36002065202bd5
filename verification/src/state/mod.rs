//! Application state.
pub mod store;
