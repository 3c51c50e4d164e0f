//! The orchestrator: owns the five buffer pairs, the immutable system
//! parameter record and the dispatch configuration, assembles the shared
//! six-slot binding layout, and drives the fixed three-stage sequence
//! k-grid, eigensolve, density. Each stage yields the command sequence the
//! driver layer must submit; the host blocks on device idle between stages,
//! so stages never overlap. Any mapping or driver failure aborts the run.

use vstd::prelude::*;
use crate::buff_utils::BufferInfo;
use crate::buff_utils::MapMode;
use crate::buff_utils::MapRequest;
use crate::buff_utils::StagingWrite;
use crate::buff_utils::TransferState;
use crate::commands::Command;
use crate::commands::Kernel;
use crate::commands::shader_buffer_id;
use crate::commands::spec_shader_buffer_id;
use crate::errors::BufferError;
use crate::grid::DispatchConfig;
use crate::layout::BindGroupEntry;
use crate::layout::BindGroupLayoutEntry;
use crate::layout::BufferBindingType;
use crate::layout::spec_layout_slots_unique;
use crate::usage::BufferUsageFlags;
use crate::usage::UsageIntent;

verus! {

/// Binding slot of the immutable system-parameter record.
pub const SYSTEM_PARAMS_SLOT: u32 = 0;

/// Binding slot of the k-value grid.
pub const K_VALUES_SLOT: u32 = 1;

/// Binding slot of the per-point Hamiltonian (internal to the device).
pub const HAMILTONIAN_SLOT: u32 = 2;

/// Binding slot of the per-point eigen-decomposition results.
pub const EIGEN_SLOT: u32 = 3;

/// Binding slot of the chemical-potential scalar.
pub const CHEM_POTENTIAL_SLOT: u32 = 4;

/// Binding slot of the per-point charge density.
pub const CHARGE_DENSITY_SLOT: u32 = 5;

/// Number of k-points of the logical 512 by 512 grid.
pub const NUM_K_POINTS: u64 = 512 * 512;

/// Byte size of the system-parameter record: four 2D basis vectors and six
/// scalars (two lattice constants, on-site offset, hopping amplitude,
/// unit-cell area, alignment padding), each component four bytes.
pub const SYSTEM_PARAMS_BYTES: u64 = 56;

/// Byte size of one k-value: a 2D reciprocal-space coordinate.
pub const K_VALUE_BYTES: u64 = 8;

/// Byte size of one Hamiltonian: a 2 by 2 complex matrix as four real pairs.
pub const HAMILTONIAN_BYTES: u64 = 32;

/// Byte size of one eigen-result: the originating k-value, two real
/// eigenvalues and two complex 2D eigenvectors.
pub const EIGEN_RESULT_BYTES: u64 = 48;

/// Byte size of one real scalar.
pub const SCALAR_BYTES: u64 = 4;

/// The stage the run has reached. Transitions are only ever invoked in
/// sequence by the controlling routine; the stage methods' preconditions
/// state that discipline.
#[derive(Debug, Clone, Copy, PartialEq, Eq, Structural)]
pub enum RunState {
    /// No stage has run.
    Uninitialized,
    /// The k-grid kernel has been dispatched and awaited.
    GridReady,
    /// The eigensolve kernel has been dispatched and awaited.
    EigenReady,
    /// A charge-density array has been read back.
    DensityComputed,
}

/// One pair has exactly the given shape and is well formed.
pub open spec fn spec_pair_shape(
    b: BufferInfo,
    usage: UsageIntent,
    binding: u32,
    num_elems: u64,
    elem_size: u64,
) -> bool {
    &&& b.wf()
    &&& b.usage == usage
    &&& b.binding == binding
    &&& b.num_elems == num_elems
    &&& b.elem_size == elem_size
}

/// The layout entry of the system-parameter record: a uniform binding at
/// slot zero, visible to compute, written once at construction and never
/// rewritten.
pub open spec fn spec_system_params_layout_entry() -> BindGroupLayoutEntry {
    BindGroupLayoutEntry {
        binding: SYSTEM_PARAMS_SLOT,
        visibility_compute: true,
        binding_type: BufferBindingType::Uniform,
        has_dynamic_offset: false,
        min_binding_size: None,
        count: None,
    }
}

/// Owns the device-side resources of the pipeline and sequences the three
/// stages against the one shared binding layout.
pub struct Orchestrator {
    /// The stage reached so far.
    pub state: RunState,
    /// The checked grid-to-thread mapping used by every dispatch.
    pub config: DispatchConfig,
    /// The immutable system-parameter record, as its exact byte image.
    pub system_params: Vec<u8>,
    /// Per-point reciprocal-space coordinates (storage, device-written).
    pub k_values_buf_info: BufferInfo,
    /// Per-point Hamiltonians (storage, internal, never read by the host).
    pub hamiltonian_buf_info: BufferInfo,
    /// Per-point eigen-decomposition results (storage).
    pub energy_eigen_buf_info: BufferInfo,
    /// The chemical-potential scalar (uniform, host-written per evaluation).
    pub chem_potential_guess_buf_info: BufferInfo,
    /// Per-point charge density (storage, the final observable).
    pub charge_density_buf_info: BufferInfo,
}

impl Orchestrator {
    /// Well-formedness: a covering dispatch configuration for the fixed
    /// grid, a full-size parameter record, and the five pairs at their
    /// fixed slots with their fixed shapes.
    pub open spec fn wf(&self) -> bool {
        &&& self.config.wf()
        &&& self.config.covers_grid()
        &&& self.config.spec_grid_points() == NUM_K_POINTS
        &&& self.system_params@.len() == SYSTEM_PARAMS_BYTES
        &&& spec_pair_shape(
            self.k_values_buf_info,
            UsageIntent::Storage,
            K_VALUES_SLOT,
            NUM_K_POINTS,
            K_VALUE_BYTES,
        )
        &&& spec_pair_shape(
            self.hamiltonian_buf_info,
            UsageIntent::Storage,
            HAMILTONIAN_SLOT,
            NUM_K_POINTS,
            HAMILTONIAN_BYTES,
        )
        &&& spec_pair_shape(
            self.energy_eigen_buf_info,
            UsageIntent::Storage,
            EIGEN_SLOT,
            NUM_K_POINTS,
            EIGEN_RESULT_BYTES,
        )
        &&& spec_pair_shape(
            self.chem_potential_guess_buf_info,
            UsageIntent::Uniform,
            CHEM_POTENTIAL_SLOT,
            1,
            SCALAR_BYTES,
        )
        &&& spec_pair_shape(
            self.charge_density_buf_info,
            UsageIntent::Storage,
            CHARGE_DENSITY_SLOT,
            NUM_K_POINTS,
            SCALAR_BYTES,
        )
    }

    /// The dispatch command of one stage: the named kernel over the
    /// configured workgroup grid.
    pub open spec fn spec_dispatch(&self, kernel: Kernel) -> Command {
        Command::Dispatch {
            kernel,
            x: self.config.workgroups_x,
            y: self.config.workgroups_y,
            z: self.config.workgroups_z,
        }
    }

    /// The six layout entries, in fixed slot order.
    pub open spec fn spec_layout_entries(&self) -> Seq<BindGroupLayoutEntry> {
        seq![
            spec_system_params_layout_entry(),
            self.k_values_buf_info.spec_layout_entry(),
            self.hamiltonian_buf_info.spec_layout_entry(),
            self.energy_eigen_buf_info.spec_layout_entry(),
            self.chem_potential_guess_buf_info.spec_layout_entry(),
            self.charge_density_buf_info.spec_layout_entry(),
        ]
    }

    /// The six bind-group entries, in fixed slot order; slot zero binds the
    /// system-parameter buffer.
    pub open spec fn spec_bind_entries(&self) -> Seq<BindGroupEntry> {
        seq![
            BindGroupEntry {
                binding: SYSTEM_PARAMS_SLOT,
                buffer: spec_shader_buffer_id(SYSTEM_PARAMS_SLOT as int) as u32,
            },
            self.k_values_buf_info.spec_bind_entry(),
            self.hamiltonian_buf_info.spec_bind_entry(),
            self.energy_eigen_buf_info.spec_bind_entry(),
            self.chem_potential_guess_buf_info.spec_bind_entry(),
            self.charge_density_buf_info.spec_bind_entry(),
        ]
    }

    /// The command sequence of one density evaluation: upload the
    /// chemical-potential scalar from its staging buffer, dispatch the
    /// density kernel, then copy the density array into its staging buffer,
    /// all ordered within one submission.
    pub open spec fn spec_density_commands(&self) -> Seq<Command> {
        seq![
            self.chem_potential_guess_buf_info.spec_copy_from_staging(),
            self.spec_dispatch(Kernel::ChargeDensity),
            self.charge_density_buf_info.spec_copy_to_staging(),
        ]
    }

    /// Build the orchestrator: validate the parameter record's byte length
    /// and the dispatch configuration against the fixed grid, then describe
    /// the five pairs at their fixed slots. Nothing is described on any
    /// rejected input, so a failed construction allocates no resource.
    pub fn new(system_params: Vec<u8>, config: DispatchConfig) -> (r: Result<
        Orchestrator,
        BufferError,
    >)
        requires
            config.wf(),
        ensures
            (system_params@.len() == SYSTEM_PARAMS_BYTES && config.covers_grid()
                && config.spec_grid_points() == NUM_K_POINTS) <==> r is Ok,
            r matches Ok(o) ==> {
                &&& o.wf()
                &&& o.state == RunState::Uninitialized
                &&& o.config == config
                &&& o.system_params@ == system_params@
                &&& o.k_values_buf_info.state == TransferState::Idle
                &&& o.hamiltonian_buf_info.state == TransferState::Idle
                &&& o.energy_eigen_buf_info.state == TransferState::Idle
                &&& o.chem_potential_guess_buf_info.state == TransferState::Idle
                &&& o.charge_density_buf_info.state == TransferState::Idle
            },
            r matches Err(e) ==> {
                if system_params@.len() != SYSTEM_PARAMS_BYTES {
                    e == BufferError::SizeMismatch
                } else {
                    e == BufferError::Construction
                }
            },
    {
        if system_params.len() as u64 != SYSTEM_PARAMS_BYTES {
            return Err(BufferError::SizeMismatch);
        }
        if !config.check_covers_grid() {
            return Err(BufferError::Construction);
        }
        if config.grid_points() != NUM_K_POINTS {
            return Err(BufferError::Construction);
        }
        let k_values_buf_info = match BufferInfo::new(
            Some("K Values".to_string()),
            K_VALUES_SLOT,
            NUM_K_POINTS,
            K_VALUE_BYTES,
            BufferUsageFlags::storage_request(),
        ) {
            Ok(b) => b,
            Err(e) => { return Err(e); },
        };
        let hamiltonian_buf_info = match BufferInfo::new(
            Some("Hamiltonian".to_string()),
            HAMILTONIAN_SLOT,
            NUM_K_POINTS,
            HAMILTONIAN_BYTES,
            BufferUsageFlags::storage_request(),
        ) {
            Ok(b) => b,
            Err(e) => { return Err(e); },
        };
        let energy_eigen_buf_info = match BufferInfo::new(
            Some("Eigen Info".to_string()),
            EIGEN_SLOT,
            NUM_K_POINTS,
            EIGEN_RESULT_BYTES,
            BufferUsageFlags::storage_request(),
        ) {
            Ok(b) => b,
            Err(e) => { return Err(e); },
        };
        let chem_potential_guess_buf_info = match BufferInfo::new(
            Some("Chem Potential Guess".to_string()),
            CHEM_POTENTIAL_SLOT,
            1,
            SCALAR_BYTES,
            BufferUsageFlags::uniform_request(),
        ) {
            Ok(b) => b,
            Err(e) => { return Err(e); },
        };
        let charge_density_buf_info = match BufferInfo::new(
            Some("Result Charge Density".to_string()),
            CHARGE_DENSITY_SLOT,
            NUM_K_POINTS,
            SCALAR_BYTES,
            BufferUsageFlags::storage_request(),
        ) {
            Ok(b) => b,
            Err(e) => { return Err(e); },
        };
        Ok(
            Orchestrator {
                state: RunState::Uninitialized,
                config,
                system_params,
                k_values_buf_info,
                hamiltonian_buf_info,
                energy_eigen_buf_info,
                chem_potential_guess_buf_info,
                charge_density_buf_info,
            },
        )
    }

    /// The six layout entries shared, unmodified, by all three pipelines,
    /// in fixed slot order, each slot declared exactly once.
    pub fn get_bind_group_layout(&self) -> (r: Vec<BindGroupLayoutEntry>)
        requires
            self.wf(),
        ensures
            r@ =~= self.spec_layout_entries(),
            spec_layout_slots_unique(r@),
    {
        let mut entries: Vec<BindGroupLayoutEntry> = Vec::new();
        entries.push(
            BindGroupLayoutEntry {
                binding: SYSTEM_PARAMS_SLOT,
                visibility_compute: true,
                binding_type: BufferBindingType::Uniform,
                has_dynamic_offset: false,
                min_binding_size: None,
                count: None,
            },
        );
        entries.push(self.k_values_buf_info.get_bind_group_layout_entry());
        entries.push(self.hamiltonian_buf_info.get_bind_group_layout_entry());
        entries.push(self.energy_eigen_buf_info.get_bind_group_layout_entry());
        entries.push(self.chem_potential_guess_buf_info.get_bind_group_layout_entry());
        entries.push(self.charge_density_buf_info.get_bind_group_layout_entry());
        proof {
            assert(entries@ =~= self.spec_layout_entries());
            assert forall|i: int, j: int|
                0 <= i < entries@.len() && 0 <= j < entries@.len() && i != j implies entries@[i].binding
                != entries@[j].binding by {
            }
        }
        entries
    }

    /// The six bind-group entries tying the device buffers to their slots,
    /// in fixed slot order.
    pub fn get_bind_group(&self) -> (r: Vec<BindGroupEntry>)
        requires
            self.wf(),
        ensures
            r@ =~= self.spec_bind_entries(),
    {
        let mut entries: Vec<BindGroupEntry> = Vec::new();
        entries.push(
            BindGroupEntry {
                binding: SYSTEM_PARAMS_SLOT,
                buffer: shader_buffer_id(SYSTEM_PARAMS_SLOT),
            },
        );
        entries.push(self.k_values_buf_info.get_bind_group_entry());
        entries.push(self.hamiltonian_buf_info.get_bind_group_entry());
        entries.push(self.energy_eigen_buf_info.get_bind_group_entry());
        entries.push(self.chem_potential_guess_buf_info.get_bind_group_entry());
        entries.push(self.charge_density_buf_info.get_bind_group_entry());
        proof {
            assert(entries@ =~= self.spec_bind_entries());
        }
        entries
    }

    /// First stage: dispatch the k-grid kernel, which writes a k-value for
    /// every grid point from the system parameters alone. The returned
    /// sequence is submitted and awaited by the driver layer.
    pub fn calc_k_grid(&mut self) -> (cmds: Vec<Command>)
        requires
            old(self).wf(),
            old(self).state == RunState::Uninitialized,
        ensures
            *final(self) == (Orchestrator { state: RunState::GridReady, ..*old(self) }),
            cmds@ =~= seq![old(self).spec_dispatch(Kernel::KGrid)],
    {
        self.state = RunState::GridReady;
        let mut cmds: Vec<Command> = Vec::new();
        cmds.push(
            Command::Dispatch {
                kernel: Kernel::KGrid,
                x: self.config.workgroups_x,
                y: self.config.workgroups_y,
                z: self.config.workgroups_z,
            },
        );
        cmds
    }

    /// Second stage: dispatch the eigensolve kernel, which reads the
    /// k-values and system parameters and writes the Hamiltonians and
    /// eigen-results. The returned sequence is submitted and awaited by the
    /// driver layer.
    pub fn calc_initial_eigen(&mut self) -> (cmds: Vec<Command>)
        requires
            old(self).wf(),
            old(self).state == RunState::GridReady,
        ensures
            *final(self) == (Orchestrator { state: RunState::EigenReady, ..*old(self) }),
            cmds@ =~= seq![old(self).spec_dispatch(Kernel::InitialEigen)],
    {
        self.state = RunState::EigenReady;
        let mut cmds: Vec<Command> = Vec::new();
        cmds.push(
            Command::Dispatch {
                kernel: Kernel::InitialEigen,
                x: self.config.workgroups_x,
                y: self.config.workgroups_y,
                z: self.config.workgroups_z,
            },
        );
        cmds
    }

    /// Open a density evaluation: validate the chemical-potential byte
    /// length against the scalar's size and hand out the write-mapping
    /// request for its staging buffer. A mismatched length fails with
    /// `SizeMismatch` and changes nothing, so no partial copy can occur.
    /// The stage may be entered from `EigenReady` and repeated from
    /// `DensityComputed`.
    pub fn begin_density_stage(&mut self, chem_potential_len: usize) -> (r: Result<
        MapRequest,
        BufferError,
    >)
        requires
            old(self).wf(),
            old(self).state == RunState::EigenReady || old(self).state
                == RunState::DensityComputed,
            old(self).chem_potential_guess_buf_info.state == TransferState::Idle,
        ensures
            chem_potential_len == SCALAR_BYTES ==> {
                &&& r matches Ok(req)
                &&& req.buffer == old(self).chem_potential_guess_buf_info.spec_staging_id()
                &&& req.mode == MapMode::Write
                &&& *final(self) == (Orchestrator {
                    chem_potential_guess_buf_info: (BufferInfo {
                        state: TransferState::MapPendingWrite,
                        ..old(self).chem_potential_guess_buf_info
                    }),
                    ..*old(self)
                })
            },
            chem_potential_len != SCALAR_BYTES ==> {
                &&& r == Err::<MapRequest, BufferError>(BufferError::SizeMismatch)
                &&& *final(self) == *old(self)
            },
    {
        self.chem_potential_guess_buf_info.request_write_mapping(chem_potential_len)
    }

    /// Record one density evaluation, entered with the driver's verdict on
    /// the write mapping. On success the chemical-potential bytes are
    /// passed through verbatim as the staging write to perform, and the
    /// returned sequence records, in order within the one submission, the
    /// scalar's upload, the density dispatch that consumes it, and the
    /// copy of the density array into staging. A mapping failure surfaces
    /// as `MapFailed` and records nothing.
    pub fn get_charge_density(&mut self, map_ok: bool, chem_potential: &Vec<u8>) -> (r: Result<
        (StagingWrite, Vec<Command>),
        BufferError,
    >)
        requires
            old(self).wf(),
            old(self).state == RunState::EigenReady || old(self).state
                == RunState::DensityComputed,
            old(self).chem_potential_guess_buf_info.state == TransferState::MapPendingWrite,
            chem_potential@.len() == SCALAR_BYTES,
        ensures
            *final(self) == (Orchestrator {
                chem_potential_guess_buf_info: (BufferInfo {
                    state: TransferState::Idle,
                    ..old(self).chem_potential_guess_buf_info
                }),
                ..*old(self)
            }),
            !map_ok ==> r == Err::<(StagingWrite, Vec<Command>), BufferError>(
                BufferError::MapFailed,
            ),
            map_ok ==> {
                &&& r matches Ok(p)
                &&& p.0.buffer == old(self).chem_potential_guess_buf_info.spec_staging_id()
                &&& p.0.bytes@ == chem_potential@
                &&& p.1@ =~= old(self).spec_density_commands()
            },
    {
        let mut cmds: Vec<Command> = Vec::new();
        let w = match self.chem_potential_guess_buf_info.set_uniform_buffer(
            map_ok,
            chem_potential,
            &mut cmds,
        ) {
            Ok(w) => w,
            Err(e) => { return Err(e); },
        };
        cmds.push(
            Command::Dispatch {
                kernel: Kernel::ChargeDensity,
                x: self.config.workgroups_x,
                y: self.config.workgroups_y,
                z: self.config.workgroups_z,
            },
        );
        self.charge_density_buf_info.copy_to_staging_buffer(&mut cmds);
        Ok((w, cmds))
    }

    /// After the density submission has completed, hand out the
    /// read-mapping request for the density staging buffer, whose
    /// device-to-staging copy the submission has already performed.
    pub fn request_density_read(&mut self) -> (r: MapRequest)
        requires
            old(self).wf(),
            old(self).charge_density_buf_info.state == TransferState::Idle,
        ensures
            r.buffer == old(self).charge_density_buf_info.spec_staging_id(),
            r.mode == MapMode::Read,
            *final(self) == (Orchestrator {
                charge_density_buf_info: (BufferInfo {
                    state: TransferState::MapPendingRead,
                    ..old(self).charge_density_buf_info
                }),
                ..*old(self)
            }),
    {
        self.charge_density_buf_info.request_read_mapping()
    }

    /// Close a density evaluation, entered with the driver's verdict on the
    /// read mapping and the mapped bytes. On success the full per-point
    /// density array is returned, one scalar per k-point, and the run
    /// reaches `DensityComputed`; a mapping failure surfaces as
    /// `MapFailed` and leaves the run state unchanged.
    pub fn read_charge_density(&mut self, map_ok: bool, mapped: &Vec<u8>) -> (r: Result<
        Vec<u8>,
        BufferError,
    >)
        requires
            old(self).wf(),
            old(self).state == RunState::EigenReady || old(self).state
                == RunState::DensityComputed,
            old(self).charge_density_buf_info.state == TransferState::MapPendingRead,
            mapped@.len() == NUM_K_POINTS * SCALAR_BYTES,
        ensures
            !map_ok ==> {
                &&& r == Err::<Vec<u8>, BufferError>(BufferError::MapFailed)
                &&& *final(self) == (Orchestrator {
                    charge_density_buf_info: (BufferInfo {
                        state: TransferState::Idle,
                        ..old(self).charge_density_buf_info
                    }),
                    ..*old(self)
                })
            },
            map_ok ==> {
                &&& r matches Ok(out)
                &&& out@ == mapped@
                &&& out@.len() == NUM_K_POINTS * SCALAR_BYTES
                &&& *final(self) == (Orchestrator {
                    state: RunState::DensityComputed,
                    charge_density_buf_info: (BufferInfo {
                        state: TransferState::Idle,
                        ..old(self).charge_density_buf_info
                    }),
                    ..*old(self)
                })
            },
    {
        match self.charge_density_buf_info.read_staging_buffer(map_ok, mapped) {
            Ok(out) => {
                self.state = RunState::DensityComputed;
                Ok(out)
            },
            Err(e) => Err(e),
        }
    }
}

/// The density-stage plan is a pure function of the pair descriptors and
/// the dispatch shape: two orchestrators that agree on them record the same
/// command sequence, however often the stage is repeated. The kernels being
/// pure functions of their declared input buffers, repeating the stage with
/// the same chemical-potential value therefore reproduces the same
/// charge-density array.
pub proof fn lemma_density_stage_deterministic(o1: Orchestrator, o2: Orchestrator)
    requires
        o1.chem_potential_guess_buf_info == o2.chem_potential_guess_buf_info,
        o1.charge_density_buf_info == o2.charge_density_buf_info,
        o1.config == o2.config,
    ensures
        o1.spec_density_commands() == o2.spec_density_commands(),
{
    assert(o1.spec_density_commands() =~= o2.spec_density_commands());
}

/// One density evaluation under the copy semantics: the store after writing
/// the chemical-potential bytes into their staging buffer and applying the
/// recorded density-stage commands.
pub open spec fn spec_density_evaluation(
    o: Orchestrator,
    pre: Seq<Seq<u8>>,
    mu: Seq<u8>,
) -> Seq<Seq<u8>> {
    crate::model::spec_apply_seq(
        pre.update(o.chem_potential_guess_buf_info.spec_staging_id(), mu),
        o.spec_density_commands(),
    )
}

/// Under the copy semantics, where a dispatch's effect on a buffer is a
/// fixed function of the device contents, a density evaluation reads back
/// exactly the device's charge-density buffer, and evaluating again with
/// the same chemical-potential bytes reads back the same array: the stage
/// writes none of its own input buffers, so repeats agree.
pub proof fn lemma_repeated_density_stage_agrees(o: Orchestrator, pre: Seq<Seq<u8>>, mu: Seq<u8>)
    requires
        o.wf(),
        12 <= pre.len(),
    ensures
        ({
            let once = spec_density_evaluation(o, pre, mu);
            let twice = spec_density_evaluation(o, once, mu);
            let density_staging = o.charge_density_buf_info.spec_staging_id();
            let density_shader = o.charge_density_buf_info.spec_shader_id();
            &&& once[density_staging] == pre[density_shader]
            &&& twice[density_staging] == once[density_staging]
        }),
{
    let cmds = o.spec_density_commands();
    assert(cmds.len() == 3);
    assert(cmds[0] == o.chem_potential_guess_buf_info.spec_copy_from_staging());
    assert(cmds[2] == o.charge_density_buf_info.spec_copy_to_staging());
    lemma_density_evaluation_unfolds(o, pre, mu);
    lemma_density_evaluation_unfolds(o, spec_density_evaluation(o, pre, mu), mu);
}

/// Unfold one density evaluation into its three command applications.
proof fn lemma_density_evaluation_unfolds(o: Orchestrator, pre: Seq<Seq<u8>>, mu: Seq<u8>)
    requires
        o.wf(),
        12 <= pre.len(),
    ensures
        ({
            let cmds = o.spec_density_commands();
            let s0 = pre.update(o.chem_potential_guess_buf_info.spec_staging_id(), mu);
            let s1 = crate::model::spec_apply(s0, cmds[0]);
            let s2 = crate::model::spec_apply(s1, cmds[1]);
            let s3 = crate::model::spec_apply(s2, cmds[2]);
            spec_density_evaluation(o, pre, mu) == s3
        }),
{
    let cmds = o.spec_density_commands();
    let s0 = pre.update(o.chem_potential_guess_buf_info.spec_staging_id(), mu);
    let s1 = crate::model::spec_apply(s0, cmds[0]);
    let s2 = crate::model::spec_apply(s1, cmds[1]);
    let s3 = crate::model::spec_apply(s2, cmds[2]);
    let rest1 = cmds.drop_first();
    let rest2 = rest1.drop_first();
    let rest3 = rest2.drop_first();
    assert(rest1[0] == cmds[1]);
    assert(rest2[0] == cmds[2]);
    assert(rest3 =~= Seq::<Command>::empty());
    assert(crate::model::spec_apply_seq(s0, cmds) == crate::model::spec_apply_seq(s1, rest1));
    assert(crate::model::spec_apply_seq(s1, rest1) == crate::model::spec_apply_seq(s2, rest2));
    assert(crate::model::spec_apply_seq(s2, rest2) == crate::model::spec_apply_seq(s3, rest3));
    assert(crate::model::spec_apply_seq(s3, rest3) == s3);
}

} // verus!
