//! Host-side descriptors for the shared resource binding layout: the
//! "function signature" between the host and the three compute kernels.
//! These records are pure configuration; the driver layer translates them
//! one for one into the GPU API's own descriptor types.

use vstd::prelude::*;

verus! {

/// How a buffer is exposed to a kernel at its binding slot.
#[derive(Debug, Clone, Copy, PartialEq, Eq)]
pub enum BufferBindingType {
    /// Read-write storage binding (`read_only` is always false here: every
    /// storage buffer of this pipeline is a kernel output).
    Storage { read_only: bool },
    /// Read-only uniform binding.
    Uniform,
}

/// One entry of the bind group layout: the declared shape of one slot.
#[derive(Debug, Clone, Copy, PartialEq, Eq)]
pub struct BindGroupLayoutEntry {
    /// The binding slot this entry declares.
    pub binding: u32,
    /// Whether compute shaders see the binding; always true in this
    /// compute-only pipeline.
    pub visibility_compute: bool,
    /// The binding type derived from the pair's usage intent.
    pub binding_type: BufferBindingType,
    /// Whether the binding takes a dynamic offset; never used here.
    pub has_dynamic_offset: bool,
    /// A minimum size hint for validation; deliberately left unset.
    pub min_binding_size: Option<u64>,
    /// Array count for binding arrays; unset: every slot is a single buffer.
    pub count: Option<u32>,
}

/// One entry of the bind group: the concrete buffer bound at one slot.
#[derive(Debug, Clone, Copy, PartialEq, Eq)]
pub struct BindGroupEntry {
    /// The binding slot this entry fills.
    pub binding: u32,
    /// Id of the device-resident buffer bound there, as its entire range.
    pub buffer: u32,
}

/// A layout entry list declares each slot at most once.
pub open spec fn spec_layout_slots_unique(entries: Seq<BindGroupLayoutEntry>) -> bool {
    forall|i: int, j: int|
        0 <= i < entries.len() && 0 <= j < entries.len() && i != j ==> entries[i].binding
            != entries[j].binding
}

} // verus!
