//! A client library for the incident event-ingestion API: it shapes the
//! trigger and resolve documents, generates deduplication keys, and turns
//! the service's status codes into typed results.

pub mod errors;
pub mod events;
