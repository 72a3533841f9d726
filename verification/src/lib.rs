//! Admission-controlled retrieval of a batch of remote documents.
//!
//! The crate holds the decisions of a batch download: which job may start
//! under the three resource gates, what a finished job does to its document,
//! and how the outcomes of all jobs reduce to one result. Transport, the
//! conversion tool and the file system are driven by the caller, who performs
//! each [`orchestrator::Action`] and reports back what happened.

pub mod client;
pub mod client_builder;
pub mod cpus;
pub mod destination;
pub mod document;
pub mod error;
pub mod invariants;
pub mod job;
pub mod locator;
pub mod orchestrator;
pub mod semaphore;
pub mod simple_document;
pub mod tally;
pub mod utils;
pub mod wkhtmltopdf;
