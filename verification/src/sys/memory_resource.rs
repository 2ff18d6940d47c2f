//! Allocator strategies: process-wide device allocator configuration,
//! installed through the execution context's single allocator slot and
//! reversed exactly once when the owning handle is released.

use vstd::prelude::*;

use crate::errors::{BackendOp, CumlError};
use crate::sys::device_resource::DeviceResource;

verus! {

/// What occupies the process-wide allocator slot.
#[derive(Debug, Clone, Copy, PartialEq, Eq, Structural)]
pub enum AllocatorKind {
    /// The backend's initial default allocator.
    Device,
    /// A pooled allocator with a fixed initial size and a growth ceiling.
    Pool,
    /// A size-binned allocator with power-of-two bins.
    Binning,
    /// An arena allocator.
    Arena,
}

/// The status a constructor reports when the backend rejects the requested
/// allocator configuration.
pub const STATUS_BAD_ALLOCATOR_CONFIG: i32 = 1;

/// A handle for one installed allocator strategy. It records which
/// constructor made it and what the allocator slot held before, because the
/// reversal differs by constructor and must restore the prior state; the
/// tag is carried, never inferred. Releasing the handle is the only way to
/// reverse the installation, and consuming `self` makes it happen at most
/// once.
#[derive(Debug)]
pub struct MemoryResource {
    kind: AllocatorKind,
    prior: AllocatorKind,
}

impl MemoryResource {
    /// Which constructor made this handle.
    pub closed spec fn spec_kind(self) -> AllocatorKind {
        self.kind
    }

    /// What the allocator slot held when this handle was made.
    pub closed spec fn spec_prior(self) -> AllocatorKind {
        self.prior
    }

    /// Install a pooled device allocator with `initial_pool_size` bytes,
    /// growing up to `maximum_pool_size` bytes.
    pub fn use_pool_memory_resource(
        res: &mut DeviceResource,
        initial_pool_size: usize,
        maximum_pool_size: usize,
    ) -> (r: Result<MemoryResource, CumlError>)
        requires
            old(res).allocators_created < u64::MAX,
        ensures
            r is Ok <==> !old(res).faulted(BackendOp::UsePoolAllocator),
            r matches Ok(m) ==> {
                &&& m.spec_kind() is Pool
                &&& m.spec_prior() == old(res).allocator
                &&& *final(res) == (DeviceResource {
                    allocators_created: (old(res).allocators_created + 1) as u64,
                    allocator: AllocatorKind::Pool,
                    ..*old(res)
                })
            },
            r matches Err(e) ==> {
                &&& e == (CumlError::Backend {
                    op: BackendOp::UsePoolAllocator,
                    code: old(res).fault_code,
                })
                &&& *final(res) == *old(res)
            },
    {
        match res.fault_for(BackendOp::UsePoolAllocator) {
            Some(code) => Err(CumlError::Backend { op: BackendOp::UsePoolAllocator, code }),
            None => {
                let prior = res.allocator;
                res.allocator = AllocatorKind::Pool;
                res.allocators_created = res.allocators_created + 1;
                Ok(MemoryResource { kind: AllocatorKind::Pool, prior })
            },
        }
    }

    /// Install a size-binned device allocator with power-of-two bins between
    /// `min_size_exponent` and `max_size_exponent`. The backend rejects a
    /// configuration whose maximum exponent is below its minimum.
    pub fn use_binning_memory_resource(
        res: &mut DeviceResource,
        min_size_exponent: i8,
        max_size_exponent: i8,
    ) -> (r: Result<MemoryResource, CumlError>)
        requires
            old(res).allocators_created < u64::MAX,
        ensures
            r is Ok <==> !old(res).faulted(BackendOp::UseBinningAllocator)
                && min_size_exponent <= max_size_exponent,
            r matches Ok(m) ==> {
                &&& m.spec_kind() is Binning
                &&& m.spec_prior() == old(res).allocator
                &&& *final(res) == (DeviceResource {
                    allocators_created: (old(res).allocators_created + 1) as u64,
                    allocator: AllocatorKind::Binning,
                    ..*old(res)
                })
            },
            old(res).faulted(BackendOp::UseBinningAllocator) ==> r == Err::<MemoryResource, CumlError>(
                CumlError::Backend { op: BackendOp::UseBinningAllocator, code: old(res).fault_code },
            ),
            !old(res).faulted(BackendOp::UseBinningAllocator) && max_size_exponent < min_size_exponent
                ==> r == Err::<MemoryResource, CumlError>(CumlError::Backend {
                    op: BackendOp::UseBinningAllocator,
                    code: STATUS_BAD_ALLOCATOR_CONFIG,
                }),
            r is Err ==> *final(res) == *old(res),
    {
        match res.fault_for(BackendOp::UseBinningAllocator) {
            Some(code) => Err(CumlError::Backend { op: BackendOp::UseBinningAllocator, code }),
            None => {
                if max_size_exponent < min_size_exponent {
                    Err(CumlError::Backend {
                        op: BackendOp::UseBinningAllocator,
                        code: STATUS_BAD_ALLOCATOR_CONFIG,
                    })
                } else {
                    let prior = res.allocator;
                    res.allocator = AllocatorKind::Binning;
                    res.allocators_created = res.allocators_created + 1;
                    Ok(MemoryResource { kind: AllocatorKind::Binning, prior })
                }
            },
        }
    }

    /// Install an arena device allocator.
    pub fn use_arena_memoryg_resource(res: &mut DeviceResource) -> (r: Result<
        MemoryResource,
        CumlError,
    >)
        requires
            old(res).allocators_created < u64::MAX,
        ensures
            r is Ok <==> !old(res).faulted(BackendOp::UseArenaAllocator),
            r matches Ok(m) ==> {
                &&& m.spec_kind() is Arena
                &&& m.spec_prior() == old(res).allocator
                &&& *final(res) == (DeviceResource {
                    allocators_created: (old(res).allocators_created + 1) as u64,
                    allocator: AllocatorKind::Arena,
                    ..*old(res)
                })
            },
            r matches Err(e) ==> {
                &&& e == (CumlError::Backend {
                    op: BackendOp::UseArenaAllocator,
                    code: old(res).fault_code,
                })
                &&& *final(res) == *old(res)
            },
    {
        match res.fault_for(BackendOp::UseArenaAllocator) {
            Some(code) => Err(CumlError::Backend { op: BackendOp::UseArenaAllocator, code }),
            None => {
                let prior = res.allocator;
                res.allocator = AllocatorKind::Arena;
                res.allocators_created = res.allocators_created + 1;
                Ok(MemoryResource { kind: AllocatorKind::Arena, prior })
            },
        }
    }

    /// Reverse the installation: restore the allocator slot to what the
    /// recorded tag says it held before this strategy was installed.
    pub fn release(self, res: &mut DeviceResource)
        requires
            old(res).allocators_released < u64::MAX,
        ensures
            *final(res) == (DeviceResource {
                allocators_released: (old(res).allocators_released + 1) as u64,
                allocator: self.spec_prior(),
                ..*old(res)
            }),
    {
        res.allocator = self.prior;
        res.allocators_released = res.allocators_released + 1;
    }
}

} // verus!
