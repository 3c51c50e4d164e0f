use wgpu_hartree_fock::buff_utils::BufferInfo;
use wgpu_hartree_fock::buff_utils::MapMode;
use wgpu_hartree_fock::commands::Command;
use wgpu_hartree_fock::errors::BufferError;
use wgpu_hartree_fock::layout::BufferBindingType;
use wgpu_hartree_fock::model::StoreModel;
use wgpu_hartree_fock::usage::intent_from_flags;
use wgpu_hartree_fock::usage::BufferUsageFlags;
use wgpu_hartree_fock::usage::UsageIntent;

fn storage_pair(binding: u32, num_elems: u64, elem_size: u64) -> BufferInfo {
    BufferInfo::new(
        None,
        binding,
        num_elems,
        elem_size,
        BufferUsageFlags::storage_request(),
    )
    .unwrap()
}

fn uniform_pair(binding: u32, num_elems: u64, elem_size: u64) -> BufferInfo {
    BufferInfo::new(
        None,
        binding,
        num_elems,
        elem_size,
        BufferUsageFlags::uniform_request(),
    )
    .unwrap()
}

#[test]
fn storage_intent_derives_one_way_capabilities() {
    let pair = storage_pair(1, 8, 4);
    let shader = pair.shader_usage();
    assert!(shader.storage && shader.copy_src);
    assert!(!shader.uniform && !shader.copy_dst && !shader.map_read && !shader.map_write);
    let staging = pair.staging_usage();
    assert!(staging.copy_dst && staging.map_read);
    assert!(!staging.map_write && !staging.storage && !staging.uniform && !staging.copy_src);
}

#[test]
fn uniform_intent_derives_one_way_capabilities() {
    let pair = uniform_pair(4, 1, 4);
    let shader = pair.shader_usage();
    assert!(shader.uniform && shader.copy_dst);
    assert!(!shader.storage && !shader.copy_src && !shader.map_read && !shader.map_write);
    let staging = pair.staging_usage();
    assert!(staging.copy_src && staging.map_write);
    assert!(!staging.map_read && !staging.storage && !staging.uniform && !staging.copy_dst);
}

#[test]
fn storage_bit_takes_precedence_over_uniform() {
    let mut flags = BufferUsageFlags::storage_request();
    flags.uniform = true;
    assert_eq!(intent_from_flags(flags), Ok(UsageIntent::Storage));
}

#[test]
fn malformed_intent_aborts_construction() {
    let flags = BufferUsageFlags::none();
    assert_eq!(intent_from_flags(flags), Err(BufferError::Construction));
    let r = BufferInfo::new(Some("Bad".to_string()), 1, 8, 4, flags);
    assert!(matches!(r, Err(BufferError::Construction)));
    let mut flags = BufferUsageFlags::none();
    flags.map_read = true;
    flags.copy_src = true;
    let r = BufferInfo::new(None, 1, 8, 4, flags);
    assert!(matches!(r, Err(BufferError::Construction)));
}

#[test]
fn layout_entry_follows_intent() {
    let s = storage_pair(3, 2, 16);
    let e = s.get_bind_group_layout_entry();
    assert_eq!(e.binding, 3);
    assert!(e.visibility_compute);
    assert_eq!(
        e.binding_type,
        BufferBindingType::Storage { read_only: false }
    );
    assert_eq!(e.min_binding_size, None);
    assert_eq!(e.count, None);
    let u = uniform_pair(4, 1, 4);
    assert_eq!(u.get_bind_group_layout_entry().binding_type, BufferBindingType::Uniform);
    assert_eq!(u.get_bind_group_entry().binding, 4);
    assert_eq!(u.get_bind_group_entry().buffer, 8);
}

#[test]
fn write_then_mirror_then_read_round_trips_bytes() {
    // A uniform pair at slot 0 (buffer ids 0 and 1) and a storage pair at
    // slot 1 (buffer ids 2 and 3), each of two four-byte elements.
    let mut writer = uniform_pair(0, 2, 4);
    let mut reader = storage_pair(1, 2, 4);
    let mut store = StoreModel::new();
    for _ in 0..4 {
        store.push_buffer(8);
    }
    let data: Vec<u8> = vec![1, 2, 3, 4, 5, 6, 7, 8];

    let mut cmds: Vec<Command> = Vec::new();
    let req = writer.request_write_mapping(data.len()).unwrap();
    assert_eq!(req.buffer, 1);
    assert_eq!(req.mode, MapMode::Write);
    let staging_write = writer.set_uniform_buffer(true, &data, &mut cmds).unwrap();
    assert_eq!(staging_write.buffer, 1);
    assert_eq!(staging_write.bytes, data);
    store.write_buffer(staging_write.buffer as usize, &staging_write.bytes);

    // Mirror the uploaded device buffer into the storage pair's device
    // buffer, then stage the storage pair for read-back.
    cmds.push(Command::CopyBufferToBuffer { src: 0, dst: 2, size: 8 });
    reader.copy_to_staging_buffer(&mut cmds);
    store.apply_sequence(&cmds);

    let req = reader.request_read_mapping();
    assert_eq!(req.buffer, 3);
    assert_eq!(req.mode, MapMode::Read);
    let mapped = store.read_buffer(3);
    let out = reader.read_staging_buffer(true, &mapped).unwrap();
    assert_eq!(out, data);
}

#[test]
fn read_returns_exactly_the_element_count() {
    let mut pair = storage_pair(2, 5, 4);
    assert_eq!(pair.num_elements(), 5);
    assert_eq!(pair.buffer_size(), 20);
    let mapped: Vec<u8> = vec![9; 20];
    pair.request_read_mapping();
    let out = pair.read_staging_buffer(true, &mapped).unwrap();
    assert_eq!(out.len(), 20);
    assert_eq!(out.len() as u64, pair.num_elements() * 4);
}

#[test]
fn mismatched_write_length_fails_without_partial_copy() {
    let mut pair = uniform_pair(4, 2, 4);
    let r = pair.request_write_mapping(7);
    assert_eq!(r, Err(BufferError::SizeMismatch));
    // Nothing was left outstanding and nothing was recorded: a correctly
    // sized request on the same pair succeeds immediately.
    let r = pair.request_write_mapping(8);
    assert!(r.is_ok());
}

#[test]
fn driver_mapping_failure_is_map_failed() {
    let mut writer = uniform_pair(0, 1, 4);
    let data: Vec<u8> = vec![1, 2, 3, 4];
    let mut cmds: Vec<Command> = Vec::new();
    writer.request_write_mapping(4).unwrap();
    let r = writer.set_uniform_buffer(false, &data, &mut cmds);
    assert!(matches!(r, Err(BufferError::MapFailed)));
    assert!(cmds.is_empty());

    let mut reader = storage_pair(1, 1, 4);
    reader.request_read_mapping();
    let mapped: Vec<u8> = vec![0; 4];
    let r = reader.read_staging_buffer(false, &mapped);
    assert!(matches!(r, Err(BufferError::MapFailed)));
}

#[test]
fn copy_to_staging_records_one_full_size_copy() {
    let pair = storage_pair(5, 3, 8);
    let mut cmds: Vec<Command> = Vec::new();
    pair.copy_to_staging_buffer(&mut cmds);
    assert_eq!(
        cmds,
        vec![Command::CopyBufferToBuffer { src: 10, dst: 11, size: 24 }]
    );
}
