//! The status and error model: every backend entry point returns a signed
//! 32-bit status code, `0` for success and anything else for failure, and
//! every failure surfaces as a single typed error naming the entry point
//! that reported it.

use vstd::prelude::*;

verus! {

/// The backend entry points reached through the fixed calling convention.
/// A failure is always attributed to exactly one of these, so the error
/// carries the variant instead of a free-form message.
#[derive(Clone, Copy, Debug, PartialEq, Eq, Structural)]
pub enum BackendOp {
    /// Create an execution context.
    CreateContext,
    /// Allocate an empty device buffer of 32-bit float words.
    CreateVectorFloat,
    /// Allocate an empty device buffer of 32-bit integers.
    CreateVectorInt,
    /// Copy a host float buffer to a fresh device buffer.
    UploadVectorFloat,
    /// Copy a host integer buffer to a fresh device buffer.
    UploadVectorInt,
    /// Copy a device float buffer back to the host.
    DownloadVectorFloat,
    /// Copy a device integer buffer back to the host.
    DownloadVectorInt,
    /// Agglomerative (hierarchical) clustering fit.
    AgglomerativeFit,
    /// Density-based clustering fit.
    DbscanFit,
    /// K-means clustering fit.
    KmeansFit,
    /// Ordinary least squares fit.
    OlsFit,
    /// Ridge regression fit.
    RidgeFit,
    /// Dense matrix-vector prediction for fitted linear models.
    GemmPredict,
    /// Load a forest model and query its class count.
    LoadModel,
    /// Forest-model inference on a loaded model.
    FilPredict,
    /// Install the pooled device allocator.
    UsePoolAllocator,
    /// Install the size-binned device allocator.
    UseBinningAllocator,
    /// Install the arena device allocator.
    UseArenaAllocator,
}

/// The single failure type of this layer. The backend offers no
/// classification beyond a nonzero status code, so none is invented here:
/// a backend failure is reported as the entry point that failed together
/// with the code it returned. The two remaining variants are host-side
/// rejections that happen before any backend call is made.
#[derive(Clone, Copy, Debug, PartialEq, Eq, Structural)]
pub enum CumlError {
    /// A backend entry point returned a nonzero status code.
    Backend { op: BackendOp, code: i32 },
    /// A model path held an embedded NUL byte; such a path cannot cross the
    /// C boundary and is rejected before it reaches the backend.
    InvalidPath,
    /// Prediction was requested from a linear model that has no coefficients
    /// yet (no successful fit and no explicit parameters).
    NotFitted,
}

} // verus!
