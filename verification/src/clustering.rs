//! Typed clustering bindings. Each `fit` follows the one fixed shape every
//! binding in this layer has: compute the derived output sizes from the
//! inputs, acquire the device buffers (and nothing else), invoke exactly
//! one algorithm entry point, translate its status, download the outputs
//! into plain host results, and release every buffer it acquired on every
//! exit path — which the contracts state as a balanced create/release
//! count over the execution context.

use vstd::prelude::*;

use crate::errors::{BackendOp, CumlError};
use crate::log_level::LogLevel;
use crate::metric::Metric;
use crate::sys::clustering::{clamped_cluster_count, cyclic_labels, STATUS_BAD_CLUSTER_COUNT};
use crate::sys::device_resource::{buffers_balanced, DeviceResource};
use crate::sys::device_vector::{zero_words, DeviceVectorFloat, DeviceVectorInt};

verus! {

/// The result of an agglomerative clustering fit: plain host data, holding
/// no device handle.
#[derive(Debug)]
pub struct AgglomerativeClusteringResult {
    /// The cluster count the backend settled on, in `[1, num_row]`.
    pub num_cluster: i32,
    /// One label per input point, each in `[0, num_cluster)`.
    pub labels: Vec<i32>,
    /// The dendrogram child pairs: exactly `2 * (num_row - 1)` entries.
    pub children: Vec<i32>,
}

impl AgglomerativeClusteringResult {
    /// The cluster count the backend settled on.
    pub fn num_cluster(&self) -> (r: i32)
        ensures
            r == self.num_cluster,
    {
        self.num_cluster
    }

    /// One label per input point.
    pub fn labels(&self) -> (r: &[i32])
        ensures
            r@ == self.labels@,
    {
        self.labels.as_slice()
    }

    /// The dendrogram child pairs.
    pub fn children(&self) -> (r: &[i32])
        ensures
            r@ == self.children@,
    {
        self.children.as_slice()
    }
}

/// Entry points an agglomerative fit goes through; when one of them is set
/// up to fail, the fit reports that failure.
pub open spec fn agg_fit_blocked(res: DeviceResource) -> bool {
    ||| res.faulted(BackendOp::UploadVectorFloat)
    ||| res.faulted(BackendOp::CreateVectorInt)
    ||| res.faulted(BackendOp::AgglomerativeFit)
    ||| res.faulted(BackendOp::DownloadVectorInt)
}

/// Agglomerative (hierarchical) clustering configuration.
pub struct AgglomerativeClustering {
    pub pairwise_conn: bool,
    pub metric: Metric,
    pub n_neighbors: i32,
    pub init_n_clusters: i32,
}

impl AgglomerativeClustering {
    /// Bundle the configuration; no resource is acquired until `fit`.
    pub fn new(
        pairwise_conn: bool,
        metric: Metric,
        n_neighbors: i32,
        init_n_clusters: i32,
    ) -> (r: AgglomerativeClustering)
        ensures
            r == (AgglomerativeClustering { pairwise_conn, metric, n_neighbors, init_n_clusters }),
    {
        AgglomerativeClustering { pairwise_conn, metric, n_neighbors, init_n_clusters }
    }

    /// Fit on `num_row` points of `num_col` features, stored row-major in
    /// `data` as float bit patterns. Succeeds exactly when no entry point
    /// on its path is set up to fail; the result then has one label per
    /// point, each in `[0, num_cluster)`, and exactly `2 * (num_row - 1)`
    /// child entries. On failure the error names the entry point that
    /// failed and no result is observable. Every device buffer acquired is
    /// released before returning, on the error paths included.
    pub fn fit(&self, res: &mut DeviceResource, data: &[u32], num_row: usize, num_col: usize) -> (r:
        Result<AgglomerativeClusteringResult, CumlError>)
        requires
            num_row >= 1,
            data@.len() == num_row * num_col,
            2 * (num_row - 1) <= usize::MAX,
            old(res).vectors_created + 3 <= u64::MAX,
            old(res).vectors_released + 3 <= u64::MAX,
        ensures
            buffers_balanced(*old(res), *final(res)),
            r is Ok <==> !agg_fit_blocked(*old(res)),
            r is Ok ==> final(res).vectors_created == old(res).vectors_created + 3,
            r matches Ok(out) ==> {
                &&& out.num_cluster == clamped_cluster_count(self.init_n_clusters, num_row)
                &&& 1 <= out.num_cluster <= num_row
                &&& out.labels@ == cyclic_labels(num_row as int, out.num_cluster)
                &&& out.labels@.len() == num_row
                &&& forall|i: int|
                    0 <= i < out.labels@.len() ==> 0 <= #[trigger] out.labels@[i]
                        < out.num_cluster
                &&& out.children@ == Seq::new((2 * (num_row - 1)) as nat, |i: int| 0i32)
                &&& out.children@.len() == 2 * (num_row - 1)
            },
            r matches Err(e) ==> (old(res).fault_op matches Some(op) && e == (CumlError::Backend {
                op,
                code: old(res).fault_code,
            })),
    {
        let dev_data = match DeviceVectorFloat::from_slice(res, data) {
            Ok(v) => v,
            Err(e) => {
                return Err(e);
            },
        };
        let mut labels = match DeviceVectorInt::new(res, num_row) {
            Ok(v) => v,
            Err(e) => {
                dev_data.release(res);
                return Err(e);
            },
        };
        let mut children = match DeviceVectorInt::new(res, 2 * (num_row - 1)) {
            Ok(v) => v,
            Err(e) => {
                labels.release(res);
                dev_data.release(res);
                return Err(e);
            },
        };
        let num_cluster = match crate::sys::clustering::agglomerative_clustering(
            res,
            &dev_data,
            num_row,
            num_col,
            self.pairwise_conn,
            self.metric.code(),
            self.n_neighbors,
            self.init_n_clusters,
            &mut labels,
            &mut children,
        ) {
            Ok(n) => n,
            Err(e) => {
                children.release(res);
                labels.release(res);
                dev_data.release(res);
                return Err(e);
            },
        };
        let host_labels = match labels.to_host(res) {
            Ok(v) => v,
            Err(e) => {
                children.release(res);
                labels.release(res);
                dev_data.release(res);
                return Err(e);
            },
        };
        let host_children = match children.to_host(res) {
            Ok(v) => v,
            Err(e) => {
                children.release(res);
                labels.release(res);
                dev_data.release(res);
                return Err(e);
            },
        };
        children.release(res);
        labels.release(res);
        dev_data.release(res);
        Ok(AgglomerativeClusteringResult {
            num_cluster,
            labels: host_labels,
            children: host_children,
        })
    }
}

/// Entry points a density-based fit goes through.
pub open spec fn dbscan_fit_blocked(res: DeviceResource) -> bool {
    ||| res.faulted(BackendOp::UploadVectorFloat)
    ||| res.faulted(BackendOp::CreateVectorInt)
    ||| res.faulted(BackendOp::DbscanFit)
    ||| res.faulted(BackendOp::DownloadVectorInt)
}

/// Density-based clustering configuration. `eps` is the neighborhood
/// radius as the bit pattern of an IEEE 754 binary64 value.
pub struct DBScan {
    pub min_pts: i32,
    pub eps: u64,
    pub metric: Metric,
    pub max_bytes_per_batch: usize,
    pub verbosity: LogLevel,
}

impl DBScan {
    /// Bundle the configuration; no resource is acquired until `fit`.
    pub fn new(
        min_pts: i32,
        eps: u64,
        metric: Metric,
        max_bytes_per_batch: usize,
        verbosity: LogLevel,
    ) -> (r: DBScan)
        ensures
            r == (DBScan { min_pts, eps, metric, max_bytes_per_batch, verbosity }),
    {
        DBScan { min_pts, eps, metric, max_bytes_per_batch, verbosity }
    }

    /// Fit on `num_row` points of `num_col` features, stored row-major in
    /// `data` as float bit patterns. On success the result holds exactly
    /// one label per point; on failure the error names the entry point
    /// that failed. Every device buffer acquired is released before
    /// returning.
    pub fn fit(&self, res: &mut DeviceResource, data: &[u32], num_row: usize, num_col: usize) -> (r:
        Result<Vec<i32>, CumlError>)
        requires
            data@.len() == num_row * num_col,
            old(res).vectors_created + 2 <= u64::MAX,
            old(res).vectors_released + 2 <= u64::MAX,
        ensures
            buffers_balanced(*old(res), *final(res)),
            r is Ok <==> !dbscan_fit_blocked(*old(res)),
            r is Ok ==> final(res).vectors_created == old(res).vectors_created + 2,
            r matches Ok(out) ==> {
                &&& out@ == Seq::new(num_row as nat, |i: int| 0i32)
                &&& out@.len() == num_row
            },
            r matches Err(e) ==> (old(res).fault_op matches Some(op) && e == (CumlError::Backend {
                op,
                code: old(res).fault_code,
            })),
    {
        let dev_data = match DeviceVectorFloat::from_slice(res, data) {
            Ok(v) => v,
            Err(e) => {
                return Err(e);
            },
        };
        let mut labels = match DeviceVectorInt::new(res, num_row) {
            Ok(v) => v,
            Err(e) => {
                dev_data.release(res);
                return Err(e);
            },
        };
        match crate::sys::clustering::dbscan(
            res,
            &dev_data,
            num_row,
            num_col,
            self.min_pts,
            self.eps,
            self.metric.code(),
            self.max_bytes_per_batch,
            self.verbosity.code(),
            &mut labels,
        ) {
            Ok(()) => {},
            Err(e) => {
                labels.release(res);
                dev_data.release(res);
                return Err(e);
            },
        }
        let host_labels = match labels.to_host(res) {
            Ok(v) => v,
            Err(e) => {
                labels.release(res);
                dev_data.release(res);
                return Err(e);
            },
        };
        labels.release(res);
        dev_data.release(res);
        Ok(host_labels)
    }
}

/// How k-means seeds its initial centroids, mapped to the exact integer
/// codes the backend expects.
#[derive(Debug, Clone, Copy, PartialEq, Eq, Structural)]
pub enum KmeansInitMethod {
    KMeansPlusPlus,
    Random,
}

impl KmeansInitMethod {
    /// The integer code the backend expects for this method.
    pub open spec fn spec_code(self) -> i32 {
        match self {
            KmeansInitMethod::KMeansPlusPlus => 0,
            KmeansInitMethod::Random => 1,
        }
    }

    /// Translate the method to the backend's integer code.
    pub fn code(self) -> (c: i32)
        ensures
            c == self.spec_code(),
    {
        match self {
            KmeansInitMethod::KMeansPlusPlus => 0,
            KmeansInitMethod::Random => 1,
        }
    }
}

/// The result of a k-means fit: plain host data, holding no device handle.
#[derive(Debug)]
pub struct KmeansResult {
    /// One label per input point, each in `[0, k)`.
    pub labels: Vec<i32>,
    /// The centroid matrix: exactly `k * num_col` float bit patterns.
    pub centroids: Vec<u32>,
    /// The final inertia, as a float bit pattern.
    pub inertia: u32,
    /// How many iterations the backend ran.
    pub n_iter: i32,
}

impl KmeansResult {
    /// One label per input point.
    pub fn labels(&self) -> (r: &[i32])
        ensures
            r@ == self.labels@,
    {
        self.labels.as_slice()
    }

    /// The centroid matrix, row-major, as float bit patterns.
    pub fn centroids(&self) -> (r: &[u32])
        ensures
            r@ == self.centroids@,
    {
        self.centroids.as_slice()
    }

    /// The final inertia, as a float bit pattern.
    pub fn inertia(&self) -> (r: u32)
        ensures
            r == self.inertia,
    {
        self.inertia
    }

    /// How many iterations the backend ran.
    pub fn n_iter(&self) -> (r: i32)
        ensures
            r == self.n_iter,
    {
        self.n_iter
    }
}

/// Entry points a k-means fit goes through.
pub open spec fn kmeans_fit_blocked(res: DeviceResource) -> bool {
    ||| kmeans_fit_blocked_early(res)
    ||| res.faulted(BackendOp::DownloadVectorInt)
    ||| res.faulted(BackendOp::DownloadVectorFloat)
}

/// The entry points a k-means fit reaches no later than the backend's
/// cluster-count check: a fault on one of these fires before a bad count
/// could be rejected.
pub open spec fn kmeans_fit_blocked_early(res: DeviceResource) -> bool {
    ||| res.faulted(BackendOp::UploadVectorFloat)
    ||| res.faulted(BackendOp::CreateVectorInt)
    ||| res.faulted(BackendOp::CreateVectorFloat)
    ||| res.faulted(BackendOp::KmeansFit)
}

/// The k-means frame: every device buffer created was released, and
/// nothing changed in the context beyond the buffer counters and the
/// recorded weight-pointer nullity.
pub open spec fn kmeans_buffers_balanced(pre: DeviceResource, post: DeviceResource) -> bool {
    &&& post == (DeviceResource {
        vectors_created: post.vectors_created,
        vectors_released: post.vectors_released,
        last_kmeans_weight_null: post.last_kmeans_weight_null,
        ..pre
    })
    &&& post.vectors_created >= pre.vectors_created
    &&& post.vectors_created - pre.vectors_created == post.vectors_released - pre.vectors_released
}

/// K-means configuration. `tol` is the convergence tolerance as the bit
/// pattern of an IEEE 754 binary64 value.
pub struct Kmeans {
    pub k: i32,
    pub max_iter: i32,
    pub tol: u64,
    pub init_method: KmeansInitMethod,
    pub metric: Metric,
    pub seed: i32,
    pub verbosity: LogLevel,
}

impl Kmeans {
    /// Bundle the configuration; no resource is acquired until `fit`.
    pub fn new(
        k: i32,
        max_iter: i32,
        tol: u64,
        init_method: KmeansInitMethod,
        metric: Metric,
        seed: i32,
        verbosity: LogLevel,
    ) -> (r: Kmeans)
        ensures
            r == (Kmeans { k, max_iter, tol, init_method, metric, seed, verbosity }),
    {
        Kmeans { k, max_iter, tol, init_method, metric, seed, verbosity }
    }

    /// Fit on `num_row` points of `num_col` features, stored row-major in
    /// `data` as float bit patterns, optionally weighting each sample.
    /// When the weights are absent the backend receives a null pointer —
    /// never a zero-length buffer — and the context records which of the
    /// two arrived. Parameter ranges are the backend's to validate: a
    /// cluster count below one is rejected by the k-means entry point
    /// itself with a nonzero status. On success the result has one label
    /// in `[0, k)` per point and exactly `k * num_col` centroid entries,
    /// whatever `num_row` is. On failure the error names the entry point
    /// that failed and no result is observable. Every device buffer
    /// acquired is released before returning.
    pub fn fit(
        &self,
        res: &mut DeviceResource,
        data: &[u32],
        num_row: usize,
        num_col: usize,
        sample_weight: Option<&[u32]>,
    ) -> (r: Result<KmeansResult, CumlError>)
        requires
            self.k >= 0,
            data@.len() == num_row * num_col,
            self.k * num_col <= usize::MAX,
            sample_weight matches Some(w) ==> w@.len() == num_row,
            old(res).vectors_created + 4 <= u64::MAX,
            old(res).vectors_released + 4 <= u64::MAX,
        ensures
            kmeans_buffers_balanced(*old(res), *final(res)),
            r is Ok <==> !kmeans_fit_blocked(*old(res)) && self.k >= 1,
            r is Ok ==> final(res).vectors_created == old(res).vectors_created + (
            if sample_weight is Some {
                4int
            } else {
                3int
            }),
            (!old(res).faulted(BackendOp::UploadVectorFloat)
                && !old(res).faulted(BackendOp::CreateVectorInt)
                && !old(res).faulted(BackendOp::CreateVectorFloat))
                ==> final(res).last_kmeans_weight_null == Some(sample_weight is None),
            r matches Ok(out) ==> {
                &&& out.labels@ == cyclic_labels(num_row as int, self.k)
                &&& out.labels@.len() == num_row
                &&& forall|i: int|
                    0 <= i < out.labels@.len() ==> 0 <= #[trigger] out.labels@[i] < self.k
                &&& out.centroids@ == zero_words(self.k * num_col)
                &&& out.centroids@.len() == self.k * num_col
                &&& out.inertia == 0u32
                &&& out.n_iter == 0i32
            },
            kmeans_fit_blocked_early(*old(res)) || (kmeans_fit_blocked(*old(res)) && self.k >= 1)
                ==> (old(res).fault_op matches Some(op) && r matches Err(e) && e == (
            CumlError::Backend { op, code: old(res).fault_code })),
            !kmeans_fit_blocked_early(*old(res)) && self.k < 1 ==> (r matches Err(e) && e == (
            CumlError::Backend { op: BackendOp::KmeansFit, code: STATUS_BAD_CLUSTER_COUNT })),
    {
        let dev_data = match DeviceVectorFloat::from_slice(res, data) {
            Ok(v) => v,
            Err(e) => {
                return Err(e);
            },
        };
        let dev_weight = match sample_weight {
            Some(w) => {
                match DeviceVectorFloat::from_slice(res, w) {
                    Ok(v) => Some(v),
                    Err(e) => {
                        dev_data.release(res);
                        return Err(e);
                    },
                }
            },
            None => None,
        };
        let mut labels = match DeviceVectorInt::new(res, num_row) {
            Ok(v) => v,
            Err(e) => {
                match dev_weight {
                    Some(w) => w.release(res),
                    None => {},
                }
                dev_data.release(res);
                return Err(e);
            },
        };
        let mut centroids = match DeviceVectorFloat::new(res, self.k as usize * num_col) {
            Ok(v) => v,
            Err(e) => {
                labels.release(res);
                match dev_weight {
                    Some(w) => w.release(res),
                    None => {},
                }
                dev_data.release(res);
                return Err(e);
            },
        };
        let weight_ref: Option<&DeviceVectorFloat> = match &dev_weight {
            Some(w) => Some(w),
            None => None,
        };
        let fit_out = crate::sys::clustering::kmeans(
            res,
            &dev_data,
            num_row,
            num_col,
            weight_ref,
            self.k,
            self.max_iter,
            self.tol,
            self.init_method.code(),
            self.metric.code(),
            self.seed,
            self.verbosity.code(),
            &mut labels,
            &mut centroids,
        );
        let (inertia, n_iter) = match fit_out {
            Ok(out) => out,
            Err(e) => {
                centroids.release(res);
                labels.release(res);
                match dev_weight {
                    Some(w) => w.release(res),
                    None => {},
                }
                dev_data.release(res);
                return Err(e);
            },
        };
        let host_labels = match labels.to_host(res) {
            Ok(v) => v,
            Err(e) => {
                centroids.release(res);
                labels.release(res);
                match dev_weight {
                    Some(w) => w.release(res),
                    None => {},
                }
                dev_data.release(res);
                return Err(e);
            },
        };
        let host_centroids = match centroids.to_host(res) {
            Ok(v) => v,
            Err(e) => {
                centroids.release(res);
                labels.release(res);
                match dev_weight {
                    Some(w) => w.release(res),
                    None => {},
                }
                dev_data.release(res);
                return Err(e);
            },
        };
        centroids.release(res);
        labels.release(res);
        match dev_weight {
            Some(w) => w.release(res),
            None => {},
        }
        dev_data.release(res);
        Ok(KmeansResult { labels: host_labels, centroids: host_centroids, inertia, n_iter })
    }
}

} // verus!
