//! The host-side model of a command sequence: an ordered batch of copy and
//! dispatch operations recorded by the orchestrator and handed to the driver
//! layer for one atomic submission. Buffers are identified by small integer
//! ids derived from the binding slot: the device-resident buffer of slot `b`
//! has id `2*b`, its staging buffer id `2*b + 1`.

use vstd::prelude::*;

verus! {

/// The three compute kernels of the pipeline, by role.
#[derive(Debug, Clone, Copy, PartialEq, Eq, Structural)]
pub enum Kernel {
    /// Writes the reciprocal-space k-point grid.
    KGrid,
    /// Builds and diagonalizes the per-point Hamiltonian.
    InitialEigen,
    /// Integrates the per-point charge density for a chemical potential.
    ChargeDensity,
}

/// One recorded operation. Nothing happens until the sequence holding it is
/// submitted to the device.
#[derive(Debug, Clone, Copy, PartialEq, Eq, Structural)]
pub enum Command {
    /// Byte-exact copy of `size` bytes from buffer `src` to buffer `dst`,
    /// both taken from offset zero.
    CopyBufferToBuffer { src: u32, dst: u32, size: u64 },
    /// Dispatch of one kernel over an `x` by `y` by `z` grid of workgroups
    /// against the shared bind group.
    Dispatch { kernel: Kernel, x: u32, y: u32, z: u32 },
}

/// Id of the device-resident buffer of a binding slot.
pub open spec fn spec_shader_buffer_id(binding: int) -> int {
    2 * binding
}

/// Id of the staging buffer of a binding slot.
pub open spec fn spec_staging_buffer_id(binding: int) -> int {
    2 * binding + 1
}

/// Id of the device-resident buffer of a binding slot.
pub fn shader_buffer_id(binding: u32) -> (r: u32)
    requires
        binding < 0x8000_0000u32,
    ensures
        r == spec_shader_buffer_id(binding as int),
{
    2 * binding
}

/// Id of the staging buffer of a binding slot.
pub fn staging_buffer_id(binding: u32) -> (r: u32)
    requires
        binding < 0x8000_0000u32,
    ensures
        r == spec_staging_buffer_id(binding as int),
{
    2 * binding + 1
}

/// Buffer ids never collide: distinct slots get distinct ids, and no slot's
/// device buffer shares an id with any slot's staging buffer.
pub proof fn lemma_buffer_ids_unique(b1: int, b2: int)
    ensures
        b1 != b2 ==> spec_shader_buffer_id(b1) != spec_shader_buffer_id(b2),
        b1 != b2 ==> spec_staging_buffer_id(b1) != spec_staging_buffer_id(b2),
        spec_shader_buffer_id(b1) != spec_staging_buffer_id(b2),
{
}

} // verus!
