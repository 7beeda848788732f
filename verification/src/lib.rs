//! The core of an S3-compatible storage client: the chunked transfer
//! engine and the session registry, with the planning, bookkeeping and
//! caching rules verified.
//!
//! - [`planner`] decides single-shot versus multipart and computes the
//!   part boundaries; its ranges provably partition the file exactly.
//! - [`engine`] drives one multipart transfer as a state machine from
//!   initiation through sequential part upload to completion, or to a
//!   single abort on failure; the caller performs each network round trip
//!   and feeds the outcome back.
//! - [`client`] builds the authenticated connection handle and caches one
//!   per configuration id in the session registry.
//! - [`config_store`] keeps the endpoint configurations themselves.
//! - [`content_type`] resolves the content type of single-shot uploads.
//! - [`types`] holds the shared data model and the error kinds.

pub mod client;
pub mod config_store;
pub mod content_type;
pub mod engine;
pub mod planner;
pub mod types;
