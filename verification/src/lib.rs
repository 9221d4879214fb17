//! Resilient client for a rate-limited, multi-credential HTTP API, paired
//! with a crash-resumable incremental polling loop.
//!
//! The crate verifies the logic that has engineering depth: credential
//! rotation under per-credential call budgets, classification of remote
//! error codes into retry / evict / fatal policies, an idempotent
//! bulk-ingestion cycle driven by a persisted cursor, and a wake/sleep
//! scheduling policy.  Network transport, persistence and scheduling are
//! performed by the surrounding (unverified) application, which drives the
//! step functions defined here.

pub mod executor;
pub mod feed;
pub mod json;
pub mod key_pool;
pub mod poller;
pub mod structures;
pub mod text;
