use cuml::errors::{BackendOp, CumlError};
use cuml::sys::device_resource::DeviceResource;
use cuml::sys::memory_resource::{
    AllocatorKind, MemoryResource, STATUS_BAD_ALLOCATOR_CONFIG,
};

#[test]
fn pool_install_and_release_restore_the_default() {
    let mut res = DeviceResource::new(0).unwrap();
    assert_eq!(res.allocator, AllocatorKind::Device);
    let mr = MemoryResource::use_pool_memory_resource(&mut res, 1 << 20, 1 << 24).unwrap();
    assert_eq!(res.allocator, AllocatorKind::Pool);
    assert_eq!(res.allocators_created, 1);
    mr.release(&mut res);
    assert_eq!(res.allocator, AllocatorKind::Device);
    assert_eq!(res.allocators_created, 1);
    assert_eq!(res.allocators_released, 1);
}

#[test]
fn binning_rejects_inverted_exponents() {
    let mut res = DeviceResource::new(0).unwrap();
    let err = MemoryResource::use_binning_memory_resource(&mut res, 20, 10).unwrap_err();
    assert_eq!(
        err,
        CumlError::Backend {
            op: BackendOp::UseBinningAllocator,
            code: STATUS_BAD_ALLOCATOR_CONFIG
        }
    );
    assert_eq!(res.allocators_created, 0);
    assert_eq!(res.allocator, AllocatorKind::Device);
}

#[test]
fn binning_accepts_ordered_exponents() {
    let mut res = DeviceResource::new(0).unwrap();
    let mr = MemoryResource::use_binning_memory_resource(&mut res, 10, 20).unwrap();
    assert_eq!(res.allocator, AllocatorKind::Binning);
    mr.release(&mut res);
    assert_eq!(res.allocator, AllocatorKind::Device);
}

#[test]
fn binning_accepts_equal_exponents() {
    let mut res = DeviceResource::new(0).unwrap();
    let mr = MemoryResource::use_binning_memory_resource(&mut res, 12, 12).unwrap();
    assert_eq!(res.allocator, AllocatorKind::Binning);
    mr.release(&mut res);
}

#[test]
fn arena_install_and_release() {
    let mut res = DeviceResource::new(0).unwrap();
    let mr = MemoryResource::use_arena_memoryg_resource(&mut res).unwrap();
    assert_eq!(res.allocator, AllocatorKind::Arena);
    mr.release(&mut res);
    assert_eq!(res.allocator, AllocatorKind::Device);
    assert_eq!(res.allocators_created, 1);
    assert_eq!(res.allocators_released, 1);
}

#[test]
fn nested_strategies_restore_in_reverse_order() {
    // Each handle records what it superseded, so releases unwind like a
    // stack when they happen innermost-first.
    let mut res = DeviceResource::new(0).unwrap();
    let pool = MemoryResource::use_pool_memory_resource(&mut res, 1 << 10, 1 << 12).unwrap();
    let arena = MemoryResource::use_arena_memoryg_resource(&mut res).unwrap();
    assert_eq!(res.allocator, AllocatorKind::Arena);
    arena.release(&mut res);
    assert_eq!(res.allocator, AllocatorKind::Pool);
    pool.release(&mut res);
    assert_eq!(res.allocator, AllocatorKind::Device);
    assert_eq!(res.allocators_created, 2);
    assert_eq!(res.allocators_released, 2);
}

#[test]
fn pool_fault_propagates_and_installs_nothing() {
    let mut res = DeviceResource::new(0).unwrap();
    res.set_fault(BackendOp::UsePoolAllocator, 17);
    let err = MemoryResource::use_pool_memory_resource(&mut res, 1024, 4096).unwrap_err();
    assert_eq!(err, CumlError::Backend { op: BackendOp::UsePoolAllocator, code: 17 });
    assert_eq!(res.allocator, AllocatorKind::Device);
    assert_eq!(res.allocators_created, 0);
}

#[test]
fn arena_fault_propagates() {
    let mut res = DeviceResource::new(0).unwrap();
    res.set_fault(BackendOp::UseArenaAllocator, 2);
    let err = MemoryResource::use_arena_memoryg_resource(&mut res).unwrap_err();
    assert_eq!(err, CumlError::Backend { op: BackendOp::UseArenaAllocator, code: 2 });
}

#[test]
fn binning_fault_takes_precedence_over_config_check() {
    let mut res = DeviceResource::new(0).unwrap();
    res.set_fault(BackendOp::UseBinningAllocator, 30);
    let err = MemoryResource::use_binning_memory_resource(&mut res, 20, 10).unwrap_err();
    assert_eq!(err, CumlError::Backend { op: BackendOp::UseBinningAllocator, code: 30 });
}
