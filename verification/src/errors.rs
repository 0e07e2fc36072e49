//! The pipeline's error taxonomy and the three caller-visible run outcomes.
//! Fatal kinds abort the pipeline; recoverable kinds are collected per item
//! and reported alongside partial success, never silently dropped.

use vstd::prelude::*;
use crate::image::EntryPointKind;

verus! {

/// Every failure the pipeline can report.
#[derive(Clone, Debug)]
pub enum PipelineError {
    /// The program image was unreadable or unparsable; fatal, raised before
    /// any attachment.
    Image,
    /// One entry point could not be registered with the kernel; recoverable,
    /// isolated to that entry point.
    Load { entry_name: String },
    /// The attach call failed for one entry point; recoverable, isolated to
    /// that entry point.
    Attach { entry_name: String, kind: EntryPointKind },
    /// CPU enumeration failed; fatal, no buffer can be bound without it.
    Topology,
    /// One ring buffer failed to bind; recoverable, isolated to that
    /// (map, cpu) pair.
    Bind { map_name: String, cpu_id: u32 },
    /// The readiness multiplexer itself failed; fatal to the whole stream.
    StreamFault,
    /// The consumer-supplied sink failed while processing a batch; what
    /// happens next is the caller's configured policy.
    Consumer,
}

impl PipelineError {
    /// Whether this kind aborts the whole pipeline. Per-entry and per-buffer
    /// failures are recoverable; only image, topology and multiplexer
    /// faults are fatal.
    pub fn is_fatal(&self) -> (r: bool)
        ensures
            r <==> (self is Image || self is Topology || self is StreamFault),
    {
        match self {
            PipelineError::Image => true,
            PipelineError::Topology => true,
            PipelineError::StreamFault => true,
            _ => false,
        }
    }
}

/// How a run ended, as the caller must be able to distinguish it.
#[derive(Clone, Copy, Debug, PartialEq, Eq, Structural)]
pub enum RunOutcome {
    /// Every planned entry point reached `Attached`.
    FullyAttached,
    /// At least one entry point failed to load or attach; the rest run, and
    /// each failure is reported by name.
    PartiallyAttached,
    /// A fatal fault stopped the pipeline before streaming began.
    FatallyAborted,
}

/// Classifies a finished run: a fatal fault always dominates; otherwise the
/// count of recoverable per-item failures decides between full and partial
/// attachment.
pub fn classify_run(fatal: bool, failure_count: usize) -> (o: RunOutcome)
    ensures
        (o == RunOutcome::FatallyAborted) <==> fatal,
        (o == RunOutcome::FullyAttached) <==> (!fatal && failure_count == 0),
        (o == RunOutcome::PartiallyAttached) <==> (!fatal && failure_count > 0),
{
    if fatal {
        RunOutcome::FatallyAborted
    } else if failure_count == 0 {
        RunOutcome::FullyAttached
    } else {
        RunOutcome::PartiallyAttached
    }
}

} // verus!
