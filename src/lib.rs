//! Session handling, selector queries and record mapping for scraping an
//! anime catalogue site, with the decisions of each scraping run stated as
//! verified contracts.
//!
//! Network traffic, the browser driver process and JSON text live outside
//! this crate: callers hand the library the page text, the decoded JSON tree
//! and the events of a run, and get plain values and actions back.

pub mod browser;
pub mod driver;
pub mod error;
pub mod json;
pub mod orchestrator;
pub mod record;
pub mod selector;
pub mod session;
pub mod text;
