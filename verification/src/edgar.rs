//! The SEC EDGAR filings browser.
pub mod state;
pub mod view;
