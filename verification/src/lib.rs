//! Capture, storage and replay of database query logs.
//!
//! A log holds the queries that a database has run: SQL texts and requests to
//! the storage interface. It is stored as JSON, loaded into a `QueryLog`, and
//! replayed query by query against a database, which need not be the one it
//! was captured from. Every query is run until its runs fill a test window,
//! and is then reported with the summary of what its runs cost.
//!
//! The library decides and computes; it sends nothing. Whoever drives a
//! replay asks a `ReplayRun` for the next query, points it at the target
//! database with `Query::retarget`, runs it, counts what comes back with a
//! `QueryExecutionBuilder`, and hands the result to `ReplayRun::record`.
//!
//! - `query`: the queries, their labels, and how a storage request is pointed
//!   at a database.
//! - `database_name`: database names of the form `<org id>_<bucket id>`.
//! - `read_source`: the address that a storage request carries, and its wire
//!   encoding.
//! - `wire`: the wire format of that encoding.
//! - `execution`: what a run cost, and the summary of many runs.
//! - `elapsed`: spans of time.
//! - `error`: failures told in words.
//! - `query_log`: loading a stored log.
//! - `json`: JSON values.
//! - `replay`: the course of a replay.
//! - `text`: helpers for text.

pub mod database_name;
pub mod elapsed;
pub mod error;
pub mod execution;
pub mod json;
pub mod query;
pub mod query_log;
pub mod read_source;
pub mod replay;
pub mod text;
pub mod wire;
