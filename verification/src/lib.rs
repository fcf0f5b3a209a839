//! Span and event correlation for an instrumented process.
//!
//! The crate receives lifecycle callbacks for spans (timed, nested units of
//! work) and events (instantaneous occurrences), keeps the in-flight spans in
//! a registry, resolves parentage from an explicit per-thread stack of entered
//! spans, filters by target prefix and severity, and hands finished records
//! to a [`TraceHandler`](subscriber::TraceHandler).

pub mod level;
pub mod text;
pub mod filter;
pub mod visitor;
pub mod record;
pub mod context;
pub mod bridge;
pub mod model;
pub mod subscriber;
pub mod laws;
pub mod handlers;
