//! An indexer core for account and transaction updates: which updates
//! matter, how account payloads decode against a program's schema, what is
//! stored and what is republished.
//!
//! The crate holds the decisions and the data. Waiting, storing and sending
//! are left to the program that drives it.

pub mod codec;
pub mod config;
pub mod decode;
pub mod discovery;
pub mod error;
pub mod hub;
pub mod indexer;
pub mod json;
pub mod models;
pub mod parser;
pub mod pipeline;
pub mod providers;
pub mod queue;
pub mod registry;
pub mod rows;
pub mod schema;
pub mod schema_json;
pub mod table;
pub mod text;
pub mod tracking;
pub mod value;
