use wgpu_hartree_fock::commands::Command;
use wgpu_hartree_fock::commands::Kernel;
use wgpu_hartree_fock::errors::BufferError;
use wgpu_hartree_fock::grid::DispatchConfig;
use wgpu_hartree_fock::layout::BufferBindingType;
use wgpu_hartree_fock::model::StoreModel;
use wgpu_hartree_fock::orchestrator::Orchestrator;
use wgpu_hartree_fock::orchestrator::RunState;

fn params_bytes() -> Vec<u8> {
    // The byte image of the system-parameter record: contents are opaque to
    // the orchestrator, only the length is checked.
    vec![0u8; 56]
}

fn fresh_orchestrator() -> Orchestrator {
    Orchestrator::new(params_bytes(), DispatchConfig::standard()).unwrap()
}

/// A store with the twelve buffer ids of the six slots. Only the buffers
/// the recorded copies touch need their real sizes: the chemical-potential
/// pair (ids 8 and 9) and the charge-density pair (ids 10 and 11).
fn fresh_store() -> StoreModel {
    let mut store = StoreModel::new();
    for id in 0..12usize {
        let size = match id {
            8 | 9 => 4,
            10 | 11 => 512 * 512 * 4,
            _ => 0,
        };
        store.push_buffer(size);
    }
    store
}

fn run_density_stage(o: &mut Orchestrator, store: &mut StoreModel, mu: &Vec<u8>) -> Vec<u8> {
    let req = o.begin_density_stage(mu.len()).unwrap();
    assert_eq!(req.buffer, 9);
    let (staging_write, cmds) = o.get_charge_density(true, mu).unwrap();
    assert_eq!(staging_write.bytes, *mu);
    store.write_buffer(staging_write.buffer as usize, &staging_write.bytes);
    store.apply_sequence(&cmds);
    let req = o.request_density_read();
    assert_eq!(req.buffer, 11);
    let mapped = store.read_buffer(11);
    o.read_charge_density(true, &mapped).unwrap()
}

#[test]
fn standard_config_covers_the_grid() {
    let cfg = DispatchConfig::standard();
    assert_eq!(cfg.total_threads(), 262144);
    assert_eq!(cfg.grid_points(), 262144);
    assert!(cfg.check_covers_grid());
    let mut skewed = cfg;
    skewed.workgroup_size_y = 5;
    assert!(!skewed.check_covers_grid());
}

#[test]
fn construction_checks_parameter_length_and_config() {
    let r = Orchestrator::new(vec![0u8; 55], DispatchConfig::standard());
    assert!(matches!(r, Err(BufferError::SizeMismatch)));
    let mut cfg = DispatchConfig::standard();
    cfg.grid_width = 100;
    cfg.grid_height = 100;
    let r = Orchestrator::new(params_bytes(), cfg);
    assert!(matches!(r, Err(BufferError::Construction)));
    assert!(Orchestrator::new(params_bytes(), DispatchConfig::standard()).is_ok());
}

#[test]
fn layout_declares_six_unique_fixed_slots() {
    let o = fresh_orchestrator();
    let layout = o.get_bind_group_layout();
    assert_eq!(layout.len(), 6);
    for (i, entry) in layout.iter().enumerate() {
        assert_eq!(entry.binding, i as u32);
        assert!(entry.visibility_compute);
        assert_eq!(entry.min_binding_size, None);
        assert_eq!(entry.count, None);
        let expected = match i {
            0 | 4 => BufferBindingType::Uniform,
            _ => BufferBindingType::Storage { read_only: false },
        };
        assert_eq!(entry.binding_type, expected);
    }
    let group = o.get_bind_group();
    assert_eq!(group.len(), 6);
    for (i, entry) in group.iter().enumerate() {
        assert_eq!(entry.binding, i as u32);
        assert_eq!(entry.buffer, 2 * i as u32);
    }
}

#[test]
fn stages_advance_in_order_with_one_dispatch_each() {
    let mut o = fresh_orchestrator();
    assert_eq!(o.state, RunState::Uninitialized);
    let c1 = o.calc_k_grid();
    assert_eq!(o.state, RunState::GridReady);
    assert_eq!(
        c1,
        vec![Command::Dispatch { kernel: Kernel::KGrid, x: 32, y: 32, z: 1 }]
    );
    let c2 = o.calc_initial_eigen();
    assert_eq!(o.state, RunState::EigenReady);
    assert_eq!(
        c2,
        vec![Command::Dispatch { kernel: Kernel::InitialEigen, x: 32, y: 32, z: 1 }]
    );
}

#[test]
fn density_stage_records_upload_dispatch_and_readback_in_order() {
    let mut o = fresh_orchestrator();
    o.calc_k_grid();
    o.calc_initial_eigen();
    let mu: Vec<u8> = 0.0f32.to_le_bytes().to_vec();
    o.begin_density_stage(mu.len()).unwrap();
    let (_, cmds) = o.get_charge_density(true, &mu).unwrap();
    assert_eq!(
        cmds,
        vec![
            Command::CopyBufferToBuffer { src: 9, dst: 8, size: 4 },
            Command::Dispatch { kernel: Kernel::ChargeDensity, x: 32, y: 32, z: 1 },
            Command::CopyBufferToBuffer { src: 10, dst: 11, size: 512 * 512 * 4 },
        ]
    );
}

#[test]
fn mismatched_chemical_potential_length_fails_before_any_work() {
    let mut o = fresh_orchestrator();
    o.calc_k_grid();
    o.calc_initial_eigen();
    let r = o.begin_density_stage(8);
    assert_eq!(r, Err(BufferError::SizeMismatch));
    // The stage can still be opened correctly afterwards.
    assert!(o.begin_density_stage(4).is_ok());
}

#[test]
fn full_run_yields_one_finite_scalar_per_k_point() {
    let mut o = fresh_orchestrator();
    let mut store = fresh_store();
    store.apply_sequence(&o.calc_k_grid());
    store.apply_sequence(&o.calc_initial_eigen());
    let mu: Vec<u8> = 0.0f32.to_le_bytes().to_vec();
    let density = run_density_stage(&mut o, &mut store, &mu);
    assert_eq!(o.state, RunState::DensityComputed);
    assert_eq!(density.len(), 262144 * 4);
    let values: Vec<f32> = density
        .chunks_exact(4)
        .map(|c| f32::from_le_bytes([c[0], c[1], c[2], c[3]]))
        .collect();
    assert_eq!(values.len(), 262144);
    let mean = values.iter().sum::<f32>() / (values.len() as f32);
    assert!(mean.is_finite());
}

#[test]
fn repeated_density_stage_reproduces_the_same_array() {
    let mut o = fresh_orchestrator();
    let mut store = fresh_store();
    store.apply_sequence(&o.calc_k_grid());
    store.apply_sequence(&o.calc_initial_eigen());
    let mu: Vec<u8> = 0.25f32.to_le_bytes().to_vec();
    let first = run_density_stage(&mut o, &mut store, &mu);
    let second = run_density_stage(&mut o, &mut store, &mu);
    let third = run_density_stage(&mut o, &mut store, &mu);
    assert_eq!(first, second);
    assert_eq!(first, third);
}

#[test]
fn density_mapping_failure_aborts_the_evaluation() {
    let mut o = fresh_orchestrator();
    o.calc_k_grid();
    o.calc_initial_eigen();
    let mu: Vec<u8> = 0.0f32.to_le_bytes().to_vec();
    o.begin_density_stage(mu.len()).unwrap();
    let r = o.get_charge_density(false, &mu);
    assert!(matches!(r, Err(BufferError::MapFailed)));
    assert_eq!(o.state, RunState::EigenReady);
}
