//! A client library for the Roblox web API, split into verified decision
//! logic (this crate) and the network plumbing that drives it.
//!
//! The verified part models the JSON documents the API returns, builds the
//! request URLs and headers, and turns HTTP statuses, headers and JSON bodies
//! into the values or errors the client hands back.

pub mod types;
pub mod text;
pub mod json;
pub mod http;
pub mod error;
pub mod endpoints;
pub mod account;
pub mod order;
pub mod listings;
pub mod responses;
