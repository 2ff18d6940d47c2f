//! Raw clustering entry points. Each takes device buffers that the caller
//! created and pre-sized, passes parameters positionally as integer codes,
//! writes its results into those buffers, and reports a signed status code
//! — surfaced here as a typed result.
//!
//! What the algorithms compute is outside this layer's contract; the model
//! backend fills the output buffers deterministically (labels cycle through
//! the cluster indices, everything else is zero) so that the marshaling
//! guarantees — sizing, label ranges, error reporting — are exact and
//! checkable.

use vstd::prelude::*;

use crate::errors::{BackendOp, CumlError};
use crate::sys::device_resource::DeviceResource;
use crate::sys::device_vector::{
    zero_int_vec, zero_word_vec, zero_words, DeviceVectorFloat, DeviceVectorInt,
};

verus! {

/// The status the k-means entry point reports when the requested cluster
/// count is below one.
pub const STATUS_BAD_CLUSTER_COUNT: i32 = 1;

/// The cluster count the backend settles on: the requested initial count,
/// clamped into `[1, num_row]`.
pub open spec fn clamped_cluster_count(init_n_clusters: i32, num_row: usize) -> i32 {
    if init_n_clusters < 1 {
        1
    } else if init_n_clusters > num_row {
        num_row as i32
    } else {
        init_n_clusters
    }
}

/// `n` labels cycling through `0, 1, ..., m - 1`: every value lies in
/// `[0, m)`.
pub open spec fn cyclic_labels(n: int, m: i32) -> Seq<i32>
    recommends
        m >= 1,
{
    Seq::new(n as nat, |i: int| (i % (m as int)) as i32)
}

/// The clamped cluster count, computed.
fn clamp_cluster_count(init_n_clusters: i32, num_row: usize) -> (r: i32)
    requires
        num_row >= 1,
    ensures
        r == clamped_cluster_count(init_n_clusters, num_row),
        1 <= r <= num_row,
{
    if init_n_clusters < 1 {
        1
    } else if init_n_clusters as usize > num_row {
        num_row as i32
    } else {
        init_n_clusters
    }
}

/// A host vector of `n` labels cycling through `0, ..., m - 1`.
fn cyclic_label_vec(n: usize, m: i32) -> (v: Vec<i32>)
    requires
        m >= 1,
    ensures
        v@ == cyclic_labels(n as int, m),
{
    let mut v: Vec<i32> = Vec::new();
    let mut i: usize = 0;
    while i < n
        invariant
            i <= n,
            m >= 1,
            v@ == cyclic_labels(i as int, m),
        decreases n - i,
    {
        v.push((i % (m as usize)) as i32);
        i = i + 1;
        proof {
            assert(v@ =~= cyclic_labels(i as int, m));
        }
    }
    v
}

/// Agglomerative clustering fit over `num_row` points of `num_col`
/// features resident in `data`. On success the backend writes one label
/// per point into `labels`, the dendrogram child pairs into `children`
/// (pre-sized to `2 * (num_row - 1)`), and returns the cluster count,
/// which always lies in `[1, num_row]`; every label lies in `[0, count)`.
#[allow(unused_variables)]
pub fn agglomerative_clustering(
    res: &DeviceResource,
    data: &DeviceVectorFloat,
    num_row: usize,
    num_col: usize,
    pairwise_conn: bool,
    metric: i32,
    n_neighbors: i32,
    init_n_clusters: i32,
    labels: &mut DeviceVectorInt,
    children: &mut DeviceVectorInt,
) -> (r: Result<i32, CumlError>)
    requires
        num_row >= 1,
        data@.len() == num_row * num_col,
        old(labels)@.len() == num_row,
        old(children)@.len() == 2 * (num_row - 1),
    ensures
        r is Ok <==> !res.faulted(BackendOp::AgglomerativeFit),
        r matches Ok(num_cluster) ==> {
            &&& num_cluster == clamped_cluster_count(init_n_clusters, num_row)
            &&& 1 <= num_cluster <= num_row
            &&& final(labels)@ == cyclic_labels(num_row as int, num_cluster)
            &&& final(children)@ == Seq::new((2 * (num_row - 1)) as nat, |i: int| 0i32)
        },
        r matches Err(e) ==> {
            &&& e == (CumlError::Backend {
                op: BackendOp::AgglomerativeFit,
                code: res.fault_code,
            })
            &&& final(labels)@ == old(labels)@
            &&& final(children)@ == old(children)@
        },
{
    match res.fault_for(BackendOp::AgglomerativeFit) {
        Some(code) => Err(CumlError::Backend { op: BackendOp::AgglomerativeFit, code }),
        None => {
            let num_cluster = clamp_cluster_count(init_n_clusters, num_row);
            let lab = cyclic_label_vec(labels.len(), num_cluster);
            labels.overwrite(lab);
            let ch = zero_int_vec(children.len());
            children.overwrite(ch);
            Ok(num_cluster)
        },
    }
}

/// Density-based clustering fit over `num_row` points of `num_col`
/// features resident in `data`. On success the backend writes one label
/// per point into `labels`.
#[allow(unused_variables)]
pub fn dbscan(
    res: &DeviceResource,
    data: &DeviceVectorFloat,
    num_row: usize,
    num_col: usize,
    min_pts: i32,
    eps: u64,
    metric: i32,
    max_bytes_per_batch: usize,
    verbosity: i32,
    labels: &mut DeviceVectorInt,
) -> (r: Result<(), CumlError>)
    requires
        data@.len() == num_row * num_col,
        old(labels)@.len() == num_row,
    ensures
        r is Ok <==> !res.faulted(BackendOp::DbscanFit),
        r is Ok ==> final(labels)@ == Seq::new(num_row as nat, |i: int| 0i32),
        r matches Err(e) ==> {
            &&& e == (CumlError::Backend { op: BackendOp::DbscanFit, code: res.fault_code })
            &&& final(labels)@ == old(labels)@
        },
{
    match res.fault_for(BackendOp::DbscanFit) {
        Some(code) => Err(CumlError::Backend { op: BackendOp::DbscanFit, code }),
        None => {
            let lab = zero_int_vec(labels.len());
            labels.overwrite(lab);
            Ok(())
        },
    }
}

/// K-means fit over `num_row` points of `num_col` features resident in
/// `data`, into `k` clusters. The optional per-sample weight buffer is a
/// null pointer at the boundary when absent — never a zero-length buffer —
/// and the context records which of the two the call received. The backend
/// itself validates the cluster count: `k` below one is rejected with a
/// nonzero status. On success the backend writes one label in `[0, k)` per
/// point into `labels`, the `k * num_col` centroid buffer, and returns the
/// final inertia (as a float bit pattern) and the iteration count.
#[allow(unused_variables)]
pub fn kmeans(
    res: &mut DeviceResource,
    data: &DeviceVectorFloat,
    num_row: usize,
    num_col: usize,
    sample_weight: Option<&DeviceVectorFloat>,
    k: i32,
    max_iter: i32,
    tol: u64,
    init_method: i32,
    metric: i32,
    seed: i32,
    verbosity: i32,
    labels: &mut DeviceVectorInt,
    centroids: &mut DeviceVectorFloat,
) -> (r: Result<(u32, i32), CumlError>)
    requires
        k >= 0,
        data@.len() == num_row * num_col,
        old(labels)@.len() == num_row,
        old(centroids)@.len() == k * num_col,
        sample_weight matches Some(w) ==> w@.len() == num_row,
    ensures
        *final(res) == (DeviceResource {
            last_kmeans_weight_null: Some(sample_weight is None),
            ..*old(res)
        }),
        r is Ok <==> !old(res).faulted(BackendOp::KmeansFit) && k >= 1,
        r matches Ok(out) ==> {
            &&& out.0 == 0u32
            &&& out.1 == 0i32
            &&& final(labels)@ == cyclic_labels(num_row as int, k)
            &&& final(centroids)@ == zero_words(k * num_col)
        },
        old(res).faulted(BackendOp::KmeansFit) ==> r == Err::<(u32, i32), CumlError>(
            CumlError::Backend { op: BackendOp::KmeansFit, code: old(res).fault_code },
        ),
        !old(res).faulted(BackendOp::KmeansFit) && k < 1 ==> r == Err::<(u32, i32), CumlError>(
            CumlError::Backend { op: BackendOp::KmeansFit, code: STATUS_BAD_CLUSTER_COUNT },
        ),
        r is Err ==> {
            &&& final(labels)@ == old(labels)@
            &&& final(centroids)@ == old(centroids)@
        },
{
    res.last_kmeans_weight_null = Some(sample_weight.is_none());
    match res.fault_for(BackendOp::KmeansFit) {
        Some(code) => Err(CumlError::Backend { op: BackendOp::KmeansFit, code }),
        None => {
            if k < 1 {
                return Err(CumlError::Backend {
                    op: BackendOp::KmeansFit,
                    code: STATUS_BAD_CLUSTER_COUNT,
                });
            }
            let lab = cyclic_label_vec(labels.len(), k);
            labels.overwrite(lab);
            let cent = zero_word_vec(centroids.len());
            centroids.overwrite(cent);
            Ok((0u32, 0i32))
        },
    }
}

} // verus!
