//! The data model of a parsed program image: entry points with their hook
//! kinds and lifecycle states, and data maps with their capability kind.

use vstd::prelude::*;

verus! {

/// The hook mechanism an entry point declares for itself. `Other` covers
/// every kind this pipeline does not attach.
#[derive(Clone, Copy, Debug, PartialEq, Eq, Structural)]
pub enum EntryPointKind {
    Xdp,
    Kprobe,
    Kretprobe,
    Other,
}

/// Lifecycle of one entry point. It moves from `Loaded` to at most one of
/// `Attached` or `Failed` and never reverts.
#[derive(Clone, Copy, Debug, PartialEq, Eq, Structural)]
pub enum EntryPointState {
    Loaded,
    Attached,
    Failed,
}

/// One instrumentation routine of the image, mutated in place as the
/// pipeline loads and attaches it.
pub struct EntryPoint {
    pub name: String,
    pub kind: EntryPointKind,
    pub state: EntryPointState,
}

/// Capability of a data map: only output maps feed the event stream; every
/// other map is opaque to this pipeline.
#[derive(Clone, Copy, Debug, PartialEq, Eq, Structural)]
pub enum MapKind {
    Output,
    Opaque,
}

/// The raw discriminator that marks a perf event array (an event-output map)
/// in the image format.
pub const PERF_EVENT_ARRAY_KIND: u32 = 4;

impl MapKind {
    /// Classifies a map's raw kind discriminator: exactly the perf event
    /// array discriminator denotes an output map.
    pub fn from_discriminator(raw: u32) -> (r: MapKind)
        ensures
            (r == MapKind::Output) <==> raw == PERF_EVENT_ARRAY_KIND,
    {
        if raw == PERF_EVENT_ARRAY_KIND {
            MapKind::Output
        } else {
            MapKind::Opaque
        }
    }
}

/// One data map of the image.
pub struct DataMap {
    pub name: String,
    pub kind: MapKind,
}

/// An already-parsed program image: the entry points to attach and the data
/// maps to scan for event outputs.
pub struct ProgramImage {
    pub entries: Vec<EntryPoint>,
    pub maps: Vec<DataMap>,
}

} // verus!
