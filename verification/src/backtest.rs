//! Strategy-builder vocabulary of the backtester and the storage of user presets.
pub mod types;
pub mod user_presets;
