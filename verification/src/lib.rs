//! Verified core of the `fq` command-line tool.
pub mod backtest;
pub mod commands;
pub mod config;
pub mod dashboard;
pub mod edgar;
pub mod format;
pub mod keys;
pub mod text;
