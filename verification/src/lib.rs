//! The request-handling rules of a small HTTP greeting service.
//!
//! The service answers `GET /` with a welcome page, `GET /hello` with a JSON
//! greeting and everything else with a not-found page, and writes one
//! structured log record for each request and each step of its life cycle.
//! This crate holds those rules as functions on plain values; the listener,
//! the log sink and the process itself belong to the program around it.

pub mod filter;
pub mod handlers;
pub mod record;
pub mod response;
pub mod router;
pub mod server;
pub mod text;
