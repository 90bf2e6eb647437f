//! A block ingestion pipeline for an on-chain order-book exchange: it filters
//! transaction-receipt outcomes, decodes domain events out of their log
//! lines, maps them to storage records, and commits each block's records
//! together with a resumable checkpoint, atomically and idempotently.
//!
//! - [`json`] holds the crate's own model of a JSON document and the trusted
//!   parse into it.
//! - [`event`] decides whether a log line is a candidate event payload and
//!   decodes it into a typed domain event.
//! - [`models`] maps decoded events to storage records, stages them, and
//!   keeps the append-only tables with their checkpoint rules.
//! - [`worker`] filters outcomes and runs one block as a single transaction.
//! - [`props`] proves the pipeline's laws: idempotent replay, atomicity,
//!   filter correctness, decode tolerance, batch expansion, and the resume
//!   point.

pub mod event;
pub mod json;
pub mod models;
pub mod props;
pub mod worker;
