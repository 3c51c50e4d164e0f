//! The buffer pair: one device-resident buffer and one host-mappable staging
//! buffer of a fixed element count and element byte size, moving data in one
//! direction determined by the usage intent.
//!
//! The asynchronous mapping rendezvous (request a mapping, drive the device,
//! wait for the driver callback) is performed by the unverified driver layer.
//! Here each transfer is split at that suspension point: a `request_*`
//! method checks the preconditions and hands back the mapping request to
//! perform, and a completion method takes the driver's verdict and either
//! finishes the transfer or reports the failure. The pair's transfer state
//! tracks the protocol so that at most one mapping request is outstanding at
//! a time.

use vstd::prelude::*;
use crate::commands::Command;
use crate::commands::shader_buffer_id;
use crate::commands::spec_shader_buffer_id;
use crate::commands::spec_staging_buffer_id;
use crate::commands::staging_buffer_id;
use crate::errors::BufferError;
use crate::layout::BindGroupEntry;
use crate::layout::BindGroupLayoutEntry;
use crate::layout::BufferBindingType;
use crate::usage::BufferUsageFlags;
use crate::usage::UsageIntent;
use crate::usage::intent_from_flags;
use crate::usage::shader_usage_of;
use crate::usage::spec_flags_valid;
use crate::usage::spec_intent_of;
use crate::usage::spec_shader_usage;
use crate::usage::spec_staging_usage;
use crate::usage::staging_usage_of;

verus! {

/// Protocol state of the staging buffer of one pair.
#[derive(Debug, Clone, Copy, PartialEq, Eq, Structural)]
pub enum TransferState {
    /// No mapping request is outstanding.
    Idle,
    /// A write-mapping request has been handed out and not yet completed.
    MapPendingWrite,
    /// A read-mapping request has been handed out and not yet completed.
    MapPendingRead,
}

/// The direction of a requested mapping.
#[derive(Debug, Clone, Copy, PartialEq, Eq, Structural)]
pub enum MapMode {
    /// Map for host reading.
    Read,
    /// Map for host writing.
    Write,
}

/// An action for the driver layer: request a mapping of the given staging
/// buffer, drive the device until the callback fires, and report the result.
#[derive(Debug, Clone, Copy, PartialEq, Eq, Structural)]
pub struct MapRequest {
    /// Id of the staging buffer to map.
    pub buffer: u32,
    /// Direction of the mapping.
    pub mode: MapMode,
}

/// An action for the driver layer: place `bytes` verbatim into the mapped
/// region of the given staging buffer, then unmap it.
#[derive(Debug)]
pub struct StagingWrite {
    /// Id of the mapped staging buffer.
    pub buffer: u32,
    /// The bytes to write, exactly filling the buffer.
    pub bytes: Vec<u8>,
}

/// Copy the bytes of a vector into a fresh vector.
pub fn copy_bytes(src: &Vec<u8>) -> (out: Vec<u8>)
    ensures
        out@ == src@,
{
    let mut out: Vec<u8> = Vec::new();
    let mut i: usize = 0;
    while i < src.len()
        invariant
            i <= src@.len(),
            out@ == src@.subrange(0, i as int),
        decreases src@.len() - i,
    {
        out.push(src[i]);
        proof {
            assert(out@ =~= src@.subrange(0, i + 1 as int));
        }
        i = i + 1;
    }
    proof {
        assert(out@ =~= src@);
    }
    out
}

/// One device buffer and one staging buffer of `num_elems` elements of
/// `elem_size` bytes each, at one binding slot, with one usage intent.
///
/// The fields are mutated only through the methods below; `wf()` is
/// established by `new` and preserved by every method.
pub struct BufferInfo {
    /// The direction of the pair.
    pub usage: UsageIntent,
    /// The binding slot, unique within the shared layout.
    pub binding: u32,
    /// Fixed element count of both buffers.
    pub num_elems: u64,
    /// Fixed byte size of one element.
    pub elem_size: u64,
    /// Optional debug label.
    pub label: Option<String>,
    /// Protocol state of the staging buffer.
    pub state: TransferState,
}

impl BufferInfo {
    /// Byte size of each of the two buffers.
    pub open spec fn spec_byte_size(&self) -> int {
        self.num_elems * self.elem_size
    }

    /// Well-formedness: positive element count and size, a byte size that
    /// fits the device API's 64-bit sizes, and a slot whose buffer ids fit.
    pub open spec fn wf(&self) -> bool {
        &&& 1 <= self.num_elems
        &&& 1 <= self.elem_size
        &&& self.num_elems * self.elem_size <= u64::MAX
        &&& self.binding < 0x8000_0000u32
    }

    /// Id of the device-resident buffer of this pair.
    pub open spec fn spec_shader_id(&self) -> int {
        spec_shader_buffer_id(self.binding as int)
    }

    /// Id of the staging buffer of this pair.
    pub open spec fn spec_staging_id(&self) -> int {
        spec_staging_buffer_id(self.binding as int)
    }

    /// The copy command that moves the full device buffer into staging.
    pub open spec fn spec_copy_to_staging(&self) -> Command {
        Command::CopyBufferToBuffer {
            src: self.spec_shader_id() as u32,
            dst: self.spec_staging_id() as u32,
            size: self.spec_byte_size() as u64,
        }
    }

    /// The copy command that moves the full staging buffer to the device.
    pub open spec fn spec_copy_from_staging(&self) -> Command {
        Command::CopyBufferToBuffer {
            src: self.spec_staging_id() as u32,
            dst: self.spec_shader_id() as u32,
            size: self.spec_byte_size() as u64,
        }
    }

    /// Describe a new pair. The usage flags are validated at run time:
    /// a request with neither the `storage` nor the `uniform` capability is
    /// a construction error, rejected before any buffer is described, so no
    /// partial allocation can occur. On success every derived capability
    /// follows from the intent alone and the pair starts idle.
    pub fn new(
        label: Option<String>,
        binding: u32,
        num_elems: u64,
        elem_size: u64,
        flags: BufferUsageFlags,
    ) -> (r: Result<BufferInfo, BufferError>)
        requires
            1 <= num_elems,
            1 <= elem_size,
            num_elems * elem_size <= u64::MAX,
            binding < 0x8000_0000u32,
        ensures
            spec_flags_valid(flags) <==> r is Ok,
            r matches Ok(b) ==> {
                &&& b.usage == spec_intent_of(flags)
                &&& b.binding == binding
                &&& b.num_elems == num_elems
                &&& b.elem_size == elem_size
                &&& b.label == label
                &&& b.state == TransferState::Idle
                &&& b.wf()
            },
            r matches Err(e) ==> e == BufferError::Construction,
    {
        match intent_from_flags(flags) {
            Ok(intent) => Ok(
                BufferInfo {
                    usage: intent,
                    binding,
                    num_elems,
                    elem_size,
                    label,
                    state: TransferState::Idle,
                },
            ),
            Err(e) => Err(e),
        }
    }

    /// Byte size of each of the two buffers.
    pub fn buffer_size(&self) -> (r: u64)
        requires
            self.wf(),
        ensures
            r == self.spec_byte_size(),
    {
        self.num_elems * self.elem_size
    }

    /// Fixed element count of the pair.
    pub fn num_elements(&self) -> (r: u64)
        ensures
            r == self.num_elems,
    {
        self.num_elems
    }

    /// Capability set of the device-resident buffer, derived from the
    /// intent alone.
    pub fn shader_usage(&self) -> (r: BufferUsageFlags)
        ensures
            r == spec_shader_usage(self.usage),
    {
        shader_usage_of(self.usage)
    }

    /// Capability set of the staging buffer, derived from the intent alone.
    pub fn staging_usage(&self) -> (r: BufferUsageFlags)
        ensures
            r == spec_staging_usage(self.usage),
    {
        staging_usage_of(self.usage)
    }

    /// The declared shape of this pair's slot in the shared layout: the
    /// binding type follows the usage intent, everything else is fixed.
    pub open spec fn spec_layout_entry(&self) -> BindGroupLayoutEntry {
        BindGroupLayoutEntry {
            binding: self.binding,
            visibility_compute: true,
            binding_type: match self.usage {
                UsageIntent::Storage => BufferBindingType::Storage { read_only: false },
                UsageIntent::Uniform => BufferBindingType::Uniform,
            },
            has_dynamic_offset: false,
            min_binding_size: None,
            count: None,
        }
    }

    /// The concrete binding of this pair's slot: its entire device buffer.
    pub open spec fn spec_bind_entry(&self) -> BindGroupEntry {
        BindGroupEntry { binding: self.binding, buffer: self.spec_shader_id() as u32 }
    }

    /// The declared shape of this pair's slot in the shared layout.
    /// Pure; used only to assemble the layout.
    pub fn get_bind_group_layout_entry(&self) -> (r: BindGroupLayoutEntry)
        ensures
            r == self.spec_layout_entry(),
    {
        let binding_type = match self.usage {
            UsageIntent::Storage => BufferBindingType::Storage { read_only: false },
            UsageIntent::Uniform => BufferBindingType::Uniform,
        };
        BindGroupLayoutEntry {
            binding: self.binding,
            visibility_compute: true,
            binding_type,
            has_dynamic_offset: false,
            min_binding_size: None,
            count: None,
        }
    }

    /// The concrete binding of this pair's slot: its entire device buffer.
    /// Pure; used only to assemble the bind group.
    pub fn get_bind_group_entry(&self) -> (r: BindGroupEntry)
        requires
            self.wf(),
        ensures
            r == self.spec_bind_entry(),
    {
        BindGroupEntry { binding: self.binding, buffer: shader_buffer_id(self.binding) }
    }

    /// Record a byte-exact copy of the full device buffer into staging.
    /// Nothing moves until the sequence is submitted. Only a `Storage` pair
    /// flows in this direction.
    pub fn copy_to_staging_buffer(&self, command_encoder: &mut Vec<Command>)
        requires
            self.wf(),
            self.usage == UsageIntent::Storage,
        ensures
            final(command_encoder)@ == old(command_encoder)@.push(self.spec_copy_to_staging()),
    {
        let src: u32 = shader_buffer_id(self.binding);
        let dst: u32 = staging_buffer_id(self.binding);
        let size: u64 = self.buffer_size();
        command_encoder.push(Command::CopyBufferToBuffer { src, dst, size });
    }

    /// First half of a host write: validate the data length against the
    /// fixed byte size, and on success hand out the write-mapping request,
    /// marking it outstanding. A mismatched length fails with
    /// `SizeMismatch` and changes nothing: no request is handed out and no
    /// partial copy can occur.
    pub fn request_write_mapping(&mut self, data_len: usize) -> (r: Result<
        MapRequest,
        BufferError,
    >)
        requires
            old(self).wf(),
            old(self).usage == UsageIntent::Uniform,
            old(self).state == TransferState::Idle,
        ensures
            data_len == old(self).spec_byte_size() ==> {
                &&& r matches Ok(req)
                &&& req.buffer == old(self).spec_staging_id()
                &&& req.mode == MapMode::Write
                &&& *final(self) == (BufferInfo {
                    state: TransferState::MapPendingWrite,
                    ..*old(self)
                })
            },
            data_len != old(self).spec_byte_size() ==> {
                &&& r == Err::<MapRequest, BufferError>(BufferError::SizeMismatch)
                &&& *final(self) == *old(self)
            },
    {
        if data_len as u64 == self.buffer_size() {
            self.state = TransferState::MapPendingWrite;
            Ok(MapRequest { buffer: staging_buffer_id(self.binding), mode: MapMode::Write })
        } else {
            Err(BufferError::SizeMismatch)
        }
    }

    /// Second half of a host write, entered with the driver's mapping
    /// verdict. On success the data is passed through verbatim as the bytes
    /// to place in the mapped region, and the staging-to-device copy is
    /// recorded behind it in the given command sequence, so that one
    /// submission orders the upload before any dispatch that consumes it.
    /// A driver failure surfaces as `MapFailed` and records nothing.
    /// Either way the pair returns to idle.
    pub fn set_uniform_buffer(
        &mut self,
        map_ok: bool,
        data: &Vec<u8>,
        command_encoder: &mut Vec<Command>,
    ) -> (r: Result<StagingWrite, BufferError>)
        requires
            old(self).wf(),
            old(self).usage == UsageIntent::Uniform,
            old(self).state == TransferState::MapPendingWrite,
            data@.len() == old(self).spec_byte_size(),
        ensures
            *final(self) == (BufferInfo { state: TransferState::Idle, ..*old(self) }),
            !map_ok ==> {
                &&& r == Err::<StagingWrite, BufferError>(BufferError::MapFailed)
                &&& final(command_encoder)@ == old(command_encoder)@
            },
            map_ok ==> {
                &&& r matches Ok(w)
                &&& w.buffer == old(self).spec_staging_id()
                &&& w.bytes@ == data@
                &&& final(command_encoder)@ == old(command_encoder)@.push(
                    old(self).spec_copy_from_staging(),
                )
            },
    {
        self.state = TransferState::Idle;
        if !map_ok {
            return Err(BufferError::MapFailed);
        }
        let bytes = copy_bytes(data);
        let src: u32 = staging_buffer_id(self.binding);
        let dst: u32 = shader_buffer_id(self.binding);
        let size: u64 = self.buffer_size();
        command_encoder.push(Command::CopyBufferToBuffer { src, dst, size });
        Ok(StagingWrite { buffer: src, bytes })
    }

    /// First half of a host read-back: hand out the read-mapping request
    /// for the staging buffer, marking it outstanding. The caller must have
    /// submitted the device-to-staging copy beforehand.
    pub fn request_read_mapping(&mut self) -> (r: MapRequest)
        requires
            old(self).wf(),
            old(self).usage == UsageIntent::Storage,
            old(self).state == TransferState::Idle,
        ensures
            r.buffer == old(self).spec_staging_id(),
            r.mode == MapMode::Read,
            *final(self) == (BufferInfo { state: TransferState::MapPendingRead, ..*old(self) }),
    {
        self.state = TransferState::MapPendingRead;
        MapRequest { buffer: staging_buffer_id(self.binding), mode: MapMode::Read }
    }

    /// Second half of a host read-back, entered with the driver's mapping
    /// verdict and the mapped bytes. On success the mapped region is copied
    /// into a fresh vector holding exactly the pair's `num_elems` elements
    /// of `elem_size` bytes; a driver failure surfaces as `MapFailed`.
    /// Either way the pair returns to idle.
    pub fn read_staging_buffer(&mut self, map_ok: bool, mapped: &Vec<u8>) -> (r: Result<
        Vec<u8>,
        BufferError,
    >)
        requires
            old(self).wf(),
            old(self).usage == UsageIntent::Storage,
            old(self).state == TransferState::MapPendingRead,
            mapped@.len() == old(self).spec_byte_size(),
        ensures
            *final(self) == (BufferInfo { state: TransferState::Idle, ..*old(self) }),
            !map_ok ==> r == Err::<Vec<u8>, BufferError>(BufferError::MapFailed),
            map_ok ==> {
                &&& r matches Ok(out)
                &&& out@ == mapped@
                &&& out@.len() == old(self).num_elems * old(self).elem_size
            },
    {
        self.state = TransferState::Idle;
        if !map_ok {
            return Err(BufferError::MapFailed);
        }
        Ok(copy_bytes(mapped))
    }
}

} // verus!
