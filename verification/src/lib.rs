//! Dry-run verification pipeline for a candidate runtime upgrade.
//!
//! The pipeline loads a point-in-time state snapshot (from a live endpoint or
//! a local dump), overlays the candidate code payload onto it, optionally
//! cross-checks the snapshot's self-reported identity against the live source
//! of truth, drives a single designated entry point against the overlaid
//! state, and decodes the consumed/total resource metrics from the raw return
//! value. Every stage's decision logic is verified here; the surrounding I/O
//! (network fetch, file read, the execution engine itself) is left to the
//! caller, which feeds results back in as plain values.
//!
//! Alongside the pipeline, the crate carries the permission-gated
//! configuration toggles of the surrounding pallet — collection and item
//! setting locks — modeled over explicit stores, with a pure role
//! predicate consulted before every mutating operation.

pub mod error;
pub mod identity;
pub mod locks;
pub mod metric;
pub mod overlay;
pub mod pipeline;
pub mod snapshot;
pub mod source;
pub mod store;
