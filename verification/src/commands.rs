//! The logic of the CLI's commands: their parameters, how their textual
//! arguments are read, and what each command decides before fetching data.
pub mod args;
pub mod chart_view;
pub mod edgar;
pub mod facts;
pub mod filings;
pub mod financials;
pub mod grades;
pub mod hours;
pub mod indicators;
pub mod list_view;
pub mod params;
pub mod service;
pub mod stream;
pub mod timeline;
