//! Attachment orchestration and multi-source event aggregation for a loaded
//! kernel-instrumentation image.
//!
//! The library decides which entry points of a parsed program image are
//! attached to which hook mechanism, plans one ring buffer per active CPU for
//! every event-output map, and models the streaming phase as an explicit,
//! caller-driven state machine with per-source failure isolation. All kernel
//! and I/O work is performed by the caller; the functions here take the
//! outcomes of those calls as plain values and are verified for every outcome.

pub mod aggregator;
pub mod attacher;
pub mod binder;
pub mod errors;
pub mod image;
pub mod outcomes;
pub mod planner;
