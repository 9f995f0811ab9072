//! A periodic price-check library: it reads an item and account from a
//! configuration document, plans one HTTP request, extracts a decimal price
//! from the response body with a configured pattern, compares it against the
//! last stored price, and decides whether a new price observation must be
//! persisted. All decision logic is verified; file, network and database
//! traffic is left to a thin unverified driver that feeds results back in
//! as plain values.

pub mod errors;
pub mod text;
pub mod decimal;
pub mod config;
pub mod http;
pub mod store;
pub mod pipeline;
