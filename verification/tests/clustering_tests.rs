use cuml::clustering::{AgglomerativeClustering, DBScan, Kmeans, KmeansInitMethod};
use cuml::errors::{BackendOp, CumlError};
use cuml::log_level::LogLevel;
use cuml::metric::Metric;
use cuml::sys::device_resource::DeviceResource;

fn bits(values: &[f32]) -> Vec<u32> {
    values.iter().map(|v| v.to_bits()).collect()
}

fn grid(num_row: usize, num_col: usize) -> Vec<u32> {
    (0..num_row * num_col).map(|i| (i as f32 * 0.25).to_bits()).collect()
}

#[test]
fn agglomerative_five_rows_sizes() {
    let mut res = DeviceResource::new(0).unwrap();
    let model = AgglomerativeClustering::new(false, Metric::L2Expanded, 15, 2);
    let data = grid(5, 2);
    let out = model.fit(&mut res, &data, 5, 2).unwrap();
    assert_eq!(out.children().len(), 8);
    assert_eq!(out.labels().len(), 5);
    assert!(1 <= out.num_cluster() && out.num_cluster() <= 5);
    for &l in out.labels() {
        assert!(0 <= l && l < out.num_cluster());
    }
}

#[test]
fn agglomerative_cluster_count_is_clamped_to_rows() {
    let mut res = DeviceResource::new(0).unwrap();
    let model = AgglomerativeClustering::new(false, Metric::L1, 3, 100);
    let data = grid(4, 1);
    let out = model.fit(&mut res, &data, 4, 1).unwrap();
    assert_eq!(out.num_cluster(), 4);
    let low = AgglomerativeClustering::new(false, Metric::L1, 3, 0);
    let out = low.fit(&mut res, &data, 4, 1).unwrap();
    assert_eq!(out.num_cluster(), 1);
}

#[test]
fn agglomerative_releases_every_buffer() {
    let mut res = DeviceResource::new(0).unwrap();
    let model = AgglomerativeClustering::new(true, Metric::CosineExpanded, 5, 2);
    let data = grid(6, 3);
    model.fit(&mut res, &data, 6, 3).unwrap();
    assert_eq!(res.vectors_created, 3);
    assert_eq!(res.vectors_released, 3);
}

#[test]
fn agglomerative_fault_releases_every_buffer_and_names_the_operation() {
    let mut res = DeviceResource::new(0).unwrap();
    let model = AgglomerativeClustering::new(false, Metric::L2Expanded, 15, 2);
    let data = grid(5, 2);
    res.set_fault(BackendOp::AgglomerativeFit, 42);
    let err = model.fit(&mut res, &data, 5, 2).unwrap_err();
    assert_eq!(err, CumlError::Backend { op: BackendOp::AgglomerativeFit, code: 42 });
    // The data upload and the two output buffers were created before the
    // fit failed; all of them were still released.
    assert_eq!(res.vectors_created, 3);
    assert_eq!(res.vectors_released, 3);
}

#[test]
fn kmeans_six_by_two_with_two_clusters() {
    let mut res = DeviceResource::new(0).unwrap();
    let model = Kmeans::new(
        2,
        300,
        1e-4f64.to_bits(),
        KmeansInitMethod::KMeansPlusPlus,
        Metric::L2Expanded,
        0,
        LogLevel::Off,
    );
    let data = grid(6, 2);
    let out = model.fit(&mut res, &data, 6, 2, None).unwrap();
    assert_eq!(out.centroids().len(), 4);
    assert_eq!(out.labels().len(), 6);
    for &l in out.labels() {
        assert!(0 <= l && l < 2);
    }
}

#[test]
fn kmeans_centroid_size_ignores_row_count() {
    let mut res = DeviceResource::new(0).unwrap();
    let model = Kmeans::new(
        3,
        10,
        1e-3f64.to_bits(),
        KmeansInitMethod::Random,
        Metric::L1,
        7,
        LogLevel::Off,
    );
    for num_row in [3usize, 5, 11] {
        let data = grid(num_row, 4);
        let out = model.fit(&mut res, &data, num_row, 4, None).unwrap();
        assert_eq!(out.centroids().len(), 12);
        assert_eq!(out.labels().len(), num_row);
    }
}

#[test]
fn kmeans_absent_weights_reach_backend_as_null() {
    let mut res = DeviceResource::new(0).unwrap();
    let model = Kmeans::new(
        2,
        10,
        0.0f64.to_bits(),
        KmeansInitMethod::KMeansPlusPlus,
        Metric::L2Expanded,
        0,
        LogLevel::Off,
    );
    let data = grid(4, 2);
    assert_eq!(res.last_kmeans_weight_null, None);
    model.fit(&mut res, &data, 4, 2, None).unwrap();
    assert_eq!(res.last_kmeans_weight_null, Some(true));

    let weights = bits(&[1.0, 1.0, 2.0, 0.5]);
    model.fit(&mut res, &data, 4, 2, Some(&weights)).unwrap();
    assert_eq!(res.last_kmeans_weight_null, Some(false));
}

#[test]
fn kmeans_rejects_a_cluster_count_below_one() {
    // Parameter validation belongs to the backend: the k-means entry
    // point itself rejects k == 0 with a nonzero status, and the binding
    // still releases every buffer it acquired.
    let mut res = DeviceResource::new(0).unwrap();
    let model = Kmeans::new(
        0,
        10,
        0.0f64.to_bits(),
        KmeansInitMethod::KMeansPlusPlus,
        Metric::L2Expanded,
        0,
        LogLevel::Off,
    );
    let data = grid(4, 2);
    let err = model.fit(&mut res, &data, 4, 2, None).unwrap_err();
    assert_eq!(
        err,
        CumlError::Backend {
            op: BackendOp::KmeansFit,
            code: cuml::sys::clustering::STATUS_BAD_CLUSTER_COUNT
        }
    );
    assert_eq!(res.vectors_created, res.vectors_released);
}

#[test]
fn kmeans_fault_propagates_and_balances_buffers() {
    let mut res = DeviceResource::new(0).unwrap();
    let model = Kmeans::new(
        2,
        10,
        0.0f64.to_bits(),
        KmeansInitMethod::KMeansPlusPlus,
        Metric::L2Expanded,
        0,
        LogLevel::Off,
    );
    let data = grid(4, 2);
    let weights = bits(&[1.0, 1.0, 1.0, 1.0]);
    res.set_fault(BackendOp::KmeansFit, 42);
    let err = model.fit(&mut res, &data, 4, 2, Some(&weights)).unwrap_err();
    assert_eq!(err, CumlError::Backend { op: BackendOp::KmeansFit, code: 42 });
    assert_eq!(res.vectors_created, 4);
    assert_eq!(res.vectors_released, 4);
}

#[test]
fn kmeans_weight_upload_is_a_second_float_upload() {
    // With the weights present, four buffers go up and come back down.
    let mut res = DeviceResource::new(0).unwrap();
    let model = Kmeans::new(
        2,
        10,
        0.0f64.to_bits(),
        KmeansInitMethod::Random,
        Metric::L2Expanded,
        1,
        LogLevel::Info,
    );
    let data = grid(4, 2);
    let weights = bits(&[1.0, 2.0, 3.0, 4.0]);
    model.fit(&mut res, &data, 4, 2, Some(&weights)).unwrap();
    assert_eq!(res.vectors_created, 4);
    assert_eq!(res.vectors_released, 4);
}

#[test]
fn dbscan_labels_every_row() {
    let mut res = DeviceResource::new(0).unwrap();
    let model = DBScan::new(3, 0.5f64.to_bits(), Metric::L2Expanded, 0, LogLevel::Off);
    let data = grid(5, 2);
    let labels = model.fit(&mut res, &data, 5, 2).unwrap();
    assert_eq!(labels.len(), 5);
    assert_eq!(res.vectors_created, 2);
    assert_eq!(res.vectors_released, 2);
}

#[test]
fn dbscan_fault_propagates() {
    let mut res = DeviceResource::new(0).unwrap();
    let model = DBScan::new(3, 0.5f64.to_bits(), Metric::L2Expanded, 0, LogLevel::Off);
    let data = grid(5, 2);
    res.set_fault(BackendOp::DbscanFit, 13);
    let err = model.fit(&mut res, &data, 5, 2).unwrap_err();
    assert_eq!(err, CumlError::Backend { op: BackendOp::DbscanFit, code: 13 });
    assert_eq!(res.vectors_created, res.vectors_released);
}
