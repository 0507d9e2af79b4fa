//! Structured logging for a cloud log-ingestion backend.
//!
//! The crate models the structured log-entry document that the backend
//! ingests, renders it to its JSON wire form with exact key names and
//! omit-if-absent semantics, and maps generic five-level log events onto
//! the backend's nine-level severity scale, in either a human-readable
//! text form or the structured JSON form.

pub mod codec;
pub mod dispatch;
pub mod json;
pub mod schema;
pub mod text;
