//! The market dashboard: its state model, key handling and watchlists.
pub mod actions;
pub mod input;
pub mod state;
pub mod status;
pub mod storage;
