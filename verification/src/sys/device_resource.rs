//! The execution context. Every algorithm call needs one, and in this model
//! it literally owns the backend's state: the process-wide allocator slot,
//! the store of loadable forest models, resource counters, and the fault
//! switch that makes any entry point report a chosen nonzero status.
//!
//! The counters and the fault switch are the instrumentation that the rest
//! of the layer is specified against: constructors count up `*_created`,
//! release calls count up `*_released`, and every binding guarantees that
//! the two move in step on every exit path.

use vstd::prelude::*;

use crate::errors::{BackendOp, CumlError};
use crate::sys::memory_resource::AllocatorKind;

verus! {

/// One model the backend can load: its path (as the byte sequence the
/// caller would pass across the C boundary) and the class count the model
/// reports once loaded.
#[derive(Debug)]
pub struct ModelEntry {
    pub path: Vec<u8>,
    pub num_class: usize,
}

/// The class count of the first stored model whose path equals `path`,
/// or `None` when no stored model has that path.
pub open spec fn model_lookup(entries: Seq<ModelEntry>, path: Seq<u8>) -> Option<usize>
    decreases entries.len(),
{
    if entries.len() == 0 {
        None
    } else if entries[0].path@ == path {
        Some(entries[0].num_class)
    } else {
        model_lookup(entries.skip(1), path)
    }
}

/// An execution context: the backend environment required before any
/// algorithm call, exclusively owned and never copied. Creating one is the
/// only way to obtain backend state; letting it go out of scope is its
/// single release.
#[derive(Debug)]
pub struct DeviceResource {
    /// When `Some(op)`, the entry point `op` fails with `fault_code`
    /// instead of doing its work. At most one entry point is faulted at a
    /// time; the fault stays armed until cleared.
    pub fault_op: Option<BackendOp>,
    /// The status code a faulted entry point reports.
    pub fault_code: i32,
    /// How many device buffers were successfully created in this context.
    pub vectors_created: u64,
    /// How many device buffers were released in this context.
    pub vectors_released: u64,
    /// How many allocator strategies were successfully installed.
    pub allocators_created: u64,
    /// How many allocator strategies were released.
    pub allocators_released: u64,
    /// How many forest models were successfully loaded.
    pub models_created: u64,
    /// How many forest models were released.
    pub models_released: u64,
    /// The process-wide device allocator slot.
    pub allocator: AllocatorKind,
    /// The models the backend can load, with their class counts.
    pub models: Vec<ModelEntry>,
    /// Whether the most recent k-means call received a null weight pointer;
    /// `None` until the first k-means call.
    pub last_kmeans_weight_null: Option<bool>,
}

impl DeviceResource {
    /// The entry point `op` is set up to fail.
    pub open spec fn faulted(self, op: BackendOp) -> bool {
        self.fault_op == Some(op)
    }

    /// Acquire a fresh execution context. `create_status` is the status
    /// the backend's context-creation call reports; it is an argument
    /// because that one call precedes all context state, so there is no
    /// context yet to arm a fault in. A zero status yields a context with
    /// pristine backend state — no fault armed, all counters at zero, the
    /// default allocator installed, no loadable models — exclusively owned
    /// by the returned value. A nonzero status surfaces as a backend error
    /// naming context creation, and no context exists: there is nothing to
    /// release and nothing partially constructed to observe.
    pub fn new(create_status: i32) -> (r: Result<DeviceResource, CumlError>)
        ensures
            r is Ok <==> create_status == 0,
            r matches Ok(c) ==> {
                &&& c.fault_op is None
                &&& c.fault_code == 0
                &&& c.vectors_created == 0
                &&& c.vectors_released == 0
                &&& c.allocators_created == 0
                &&& c.allocators_released == 0
                &&& c.models_created == 0
                &&& c.models_released == 0
                &&& c.allocator is Device
                &&& c.models@.len() == 0
                &&& c.last_kmeans_weight_null is None
            },
            r matches Err(e) ==> e == (CumlError::Backend {
                op: BackendOp::CreateContext,
                code: create_status,
            }),
    {
        if create_status != 0 {
            return Err(CumlError::Backend { op: BackendOp::CreateContext, code: create_status });
        }
        Ok(DeviceResource {
            fault_op: None,
            fault_code: 0,
            vectors_created: 0,
            vectors_released: 0,
            allocators_created: 0,
            allocators_released: 0,
            models_created: 0,
            models_released: 0,
            allocator: AllocatorKind::Device,
            models: Vec::new(),
            last_kmeans_weight_null: None,
        })
    }

    /// Release the context. Consuming the owner is what makes a double
    /// release or a release-without-create unrepresentable: this is the one
    /// function that ends the context's lifetime, and it can be called at
    /// most once per `new`.
    pub fn release(self) {
    }

    /// Arm the fault switch: the next calls of `op` report `code` instead
    /// of doing their work.
    pub fn set_fault(&mut self, op: BackendOp, code: i32)
        requires
            code != 0,
        ensures
            *final(self) == (DeviceResource { fault_op: Some(op), fault_code: code, ..*old(self) }),
    {
        self.fault_op = Some(op);
        self.fault_code = code;
    }

    /// Disarm the fault switch.
    pub fn clear_fault(&mut self)
        ensures
            *final(self) == (DeviceResource { fault_op: None, fault_code: 0, ..*old(self) }),
    {
        self.fault_op = None;
        self.fault_code = 0;
    }

    /// Make a model loadable: store its path and the class count it will
    /// report once loaded.
    pub fn install_model(&mut self, path: Vec<u8>, num_class: usize)
        ensures
            final(self).models@ == old(self).models@.push(ModelEntry { path: path, num_class: num_class }),
            *final(self) == (DeviceResource { models: final(self).models, ..*old(self) }),
    {
        self.models.push(ModelEntry { path, num_class });
    }

    /// The status `op` would report right now: the armed fault code when
    /// `op` is faulted, and `None` (meaning: proceed) otherwise.
    pub fn fault_for(&self, op: BackendOp) -> (r: Option<i32>)
        ensures
            self.faulted(op) ==> r == Some(self.fault_code),
            !self.faulted(op) ==> r is None,
    {
        match self.fault_op {
            Some(f) => {
                if f == op {
                    Some(self.fault_code)
                } else {
                    None
                }
            },
            None => None,
        }
    }
}

/// `post` is `pre` with only the device-buffer counters changed.
pub open spec fn same_except_buffer_counters(pre: DeviceResource, post: DeviceResource) -> bool {
    post == (DeviceResource {
        vectors_created: post.vectors_created,
        vectors_released: post.vectors_released,
        ..pre
    })
}

/// Every device buffer created between `pre` and `post` was also released:
/// the counters moved up together, and nothing else changed. This is the
/// shape of the exactly-once-release guarantee that every binding gives,
/// on success and on every error path alike.
pub open spec fn buffers_balanced(pre: DeviceResource, post: DeviceResource) -> bool {
    &&& same_except_buffer_counters(pre, post)
    &&& post.vectors_created >= pre.vectors_created
    &&& post.vectors_created - pre.vectors_created == post.vectors_released - pre.vectors_released
}

} // verus!
