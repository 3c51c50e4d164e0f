//! Usage intents and the capability sets derived from them.
//!
//! A buffer pair is requested with a raw set of usage flags, of which only
//! the `storage` and `uniform` bits are meaningful: `storage` selects a
//! device-writable, host-readable pair, `uniform` a host-writable,
//! device-readable pair, and anything else is a construction error. The
//! full capability set of each of the two underlying buffers is derived
//! from that intent, never taken from the caller.

use vstd::prelude::*;
use crate::errors::BufferError;

verus! {

/// A set of buffer capabilities, one flag per capability.
#[derive(Debug, Clone, Copy, PartialEq, Eq, Structural)]
pub struct BufferUsageFlags {
    /// Host may map the buffer for reading.
    pub map_read: bool,
    /// Host may map the buffer for writing.
    pub map_write: bool,
    /// Buffer may be the source of a buffer-to-buffer copy.
    pub copy_src: bool,
    /// Buffer may be the destination of a buffer-to-buffer copy.
    pub copy_dst: bool,
    /// Buffer may be bound as a uniform (read-only) shader input.
    pub uniform: bool,
    /// Buffer may be bound as a read-write storage shader resource.
    pub storage: bool,
}

/// The direction of a buffer pair, as derived from the requested flags.
#[derive(Debug, Clone, Copy, PartialEq, Eq, Structural)]
pub enum UsageIntent {
    /// Device writes the buffer; the host reads it back through staging.
    Storage,
    /// Host writes the buffer through staging; the device reads it.
    Uniform,
}

impl BufferUsageFlags {
    /// The empty capability set.
    pub open spec fn spec_none() -> BufferUsageFlags {
        BufferUsageFlags {
            map_read: false,
            map_write: false,
            copy_src: false,
            copy_dst: false,
            uniform: false,
            storage: false,
        }
    }

    /// The empty capability set, as a starting point for requests.
    pub fn none() -> (r: BufferUsageFlags)
        ensures
            r == BufferUsageFlags::spec_none(),
    {
        BufferUsageFlags {
            map_read: false,
            map_write: false,
            copy_src: false,
            copy_dst: false,
            uniform: false,
            storage: false,
        }
    }

    /// A request for a storage pair: only the `storage` bit set.
    pub fn storage_request() -> (r: BufferUsageFlags)
        ensures
            r == (BufferUsageFlags { storage: true, ..BufferUsageFlags::spec_none() }),
    {
        BufferUsageFlags { storage: true, ..BufferUsageFlags::none() }
    }

    /// A request for a uniform pair: only the `uniform` bit set.
    pub fn uniform_request() -> (r: BufferUsageFlags)
        ensures
            r == (BufferUsageFlags { uniform: true, ..BufferUsageFlags::spec_none() }),
    {
        BufferUsageFlags { uniform: true, ..BufferUsageFlags::none() }
    }
}

/// Whether a raw flag request names a valid intent.
pub open spec fn spec_flags_valid(flags: BufferUsageFlags) -> bool {
    flags.storage || flags.uniform
}

/// The intent selected by a raw flag request; `storage` takes precedence.
pub open spec fn spec_intent_of(flags: BufferUsageFlags) -> UsageIntent
    recommends
        spec_flags_valid(flags),
{
    if flags.storage {
        UsageIntent::Storage
    } else {
        UsageIntent::Uniform
    }
}

/// Derive the intent from a raw flag request, rejecting a request with
/// neither the `storage` nor the `uniform` bit set.
pub fn intent_from_flags(flags: BufferUsageFlags) -> (r: Result<UsageIntent, BufferError>)
    ensures
        spec_flags_valid(flags) ==> r == Ok::<UsageIntent, BufferError>(spec_intent_of(flags)),
        !spec_flags_valid(flags) ==> r == Err::<UsageIntent, BufferError>(
            BufferError::Construction,
        ),
{
    if flags.storage {
        Ok(UsageIntent::Storage)
    } else if flags.uniform {
        Ok(UsageIntent::Uniform)
    } else {
        Err(BufferError::Construction)
    }
}

/// Capability set of the device-resident buffer of a pair.
pub open spec fn spec_shader_usage(intent: UsageIntent) -> BufferUsageFlags {
    match intent {
        UsageIntent::Storage => BufferUsageFlags {
            storage: true,
            copy_src: true,
            ..BufferUsageFlags::spec_none()
        },
        UsageIntent::Uniform => BufferUsageFlags {
            uniform: true,
            copy_dst: true,
            ..BufferUsageFlags::spec_none()
        },
    }
}

/// Capability set of the host-mappable staging buffer of a pair.
pub open spec fn spec_staging_usage(intent: UsageIntent) -> BufferUsageFlags {
    match intent {
        UsageIntent::Storage => BufferUsageFlags {
            copy_dst: true,
            map_read: true,
            ..BufferUsageFlags::spec_none()
        },
        UsageIntent::Uniform => BufferUsageFlags {
            copy_src: true,
            map_write: true,
            ..BufferUsageFlags::spec_none()
        },
    }
}

/// Derive the device-buffer capability set from the intent.
pub fn shader_usage_of(intent: UsageIntent) -> (r: BufferUsageFlags)
    ensures
        r == spec_shader_usage(intent),
{
    match intent {
        UsageIntent::Storage => BufferUsageFlags {
            storage: true,
            copy_src: true,
            ..BufferUsageFlags::none()
        },
        UsageIntent::Uniform => BufferUsageFlags {
            uniform: true,
            copy_dst: true,
            ..BufferUsageFlags::none()
        },
    }
}

/// Derive the staging-buffer capability set from the intent.
pub fn staging_usage_of(intent: UsageIntent) -> (r: BufferUsageFlags)
    ensures
        r == spec_staging_usage(intent),
{
    match intent {
        UsageIntent::Storage => BufferUsageFlags {
            copy_dst: true,
            map_read: true,
            ..BufferUsageFlags::none()
        },
        UsageIntent::Uniform => BufferUsageFlags {
            copy_src: true,
            map_write: true,
            ..BufferUsageFlags::none()
        },
    }
}

/// A `Storage` pair's device buffer cannot be bound as a uniform and its
/// staging buffer cannot be write-mapped; symmetrically, a `Uniform` pair's
/// device buffer cannot be bound as storage and its staging buffer cannot be
/// read-mapped. Each pair moves data in one direction only.
pub proof fn lemma_intent_capability_isolation()
    ensures
        !spec_shader_usage(UsageIntent::Storage).uniform,
        !spec_staging_usage(UsageIntent::Storage).map_write,
        !spec_shader_usage(UsageIntent::Uniform).storage,
        !spec_staging_usage(UsageIntent::Uniform).map_read,
{
}

} // verus!
