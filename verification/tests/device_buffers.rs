use cuml::errors::{BackendOp, CumlError};
use cuml::sys::device_resource::DeviceResource;
use cuml::sys::device_vector::{
    upload_download_float, upload_download_int, DeviceVectorFloat, DeviceVectorInt,
};

fn bits(values: &[f32]) -> Vec<u32> {
    values.iter().map(|v| v.to_bits()).collect()
}

fn floats(words: &[u32]) -> Vec<f32> {
    words.iter().map(|w| f32::from_bits(*w)).collect()
}

#[test]
fn roundtrip_float_scenario() {
    let mut res = DeviceResource::new(0).unwrap();
    let host = bits(&[1.0, 2.0, 3.0, 4.0]);
    let dev = DeviceVectorFloat::from_slice(&mut res, &host).unwrap();
    let back = dev.to_host(&res).unwrap();
    assert_eq!(floats(&back), vec![1.0, 2.0, 3.0, 4.0]);
    dev.release(&mut res);
}

#[test]
fn roundtrip_float_all_short_lengths() {
    let mut res = DeviceResource::new(0).unwrap();
    for n in 0..9usize {
        let host: Vec<u32> = (0..n).map(|i| (i as f32 * 0.5 - 1.25).to_bits()).collect();
        let back = upload_download_float(&mut res, &host).unwrap();
        assert_eq!(back, host);
    }
    assert_eq!(res.vectors_created, 9);
    assert_eq!(res.vectors_released, 9);
}

#[test]
fn roundtrip_float_preserves_odd_bit_patterns() {
    // NaNs, infinities, negative zero: the transfer is bit-for-bit.
    let mut res = DeviceResource::new(0).unwrap();
    let host = vec![
        f32::NAN.to_bits(),
        f32::INFINITY.to_bits(),
        f32::NEG_INFINITY.to_bits(),
        (-0.0f32).to_bits(),
        f32::MIN_POSITIVE.to_bits(),
        0x7fc0_0001u32,
    ];
    let back = upload_download_float(&mut res, &host).unwrap();
    assert_eq!(back, host);
}

#[test]
fn roundtrip_int_all_short_lengths() {
    let mut res = DeviceResource::new(0).unwrap();
    for n in 0..9usize {
        let host: Vec<i32> = (0..n).map(|i| i as i32 - 3).collect();
        let back = upload_download_int(&mut res, &host).unwrap();
        assert_eq!(back, host);
    }
}

#[test]
fn empty_upload_roundtrips() {
    let mut res = DeviceResource::new(0).unwrap();
    let empty: Vec<u32> = Vec::new();
    let back = upload_download_float(&mut res, &empty).unwrap();
    assert!(back.is_empty());
    let empty_i: Vec<i32> = Vec::new();
    let back_i = upload_download_int(&mut res, &empty_i).unwrap();
    assert!(back_i.is_empty());
}

#[test]
fn allocate_reads_back_zeroed_with_same_length() {
    let mut res = DeviceResource::new(0).unwrap();
    let dev = DeviceVectorFloat::new(&mut res, 5).unwrap();
    assert_eq!(dev.get_size().unwrap(), 5);
    let host = dev.to_host(&res).unwrap();
    assert_eq!(host, vec![0u32; 5]);
    dev.release(&mut res);

    let dev_i = DeviceVectorInt::new(&mut res, 7).unwrap();
    assert_eq!(dev_i.get_size().unwrap(), 7);
    assert_eq!(dev_i.to_host(&res).unwrap(), vec![0i32; 7]);
    dev_i.release(&mut res);
}

#[test]
fn zero_length_allocation_is_valid_and_empty() {
    let mut res = DeviceResource::new(0).unwrap();
    let dev = DeviceVectorFloat::new(&mut res, 0).unwrap();
    assert_eq!(dev.get_size().unwrap(), 0);
    assert!(dev.to_host(&res).unwrap().is_empty());
    dev.release(&mut res);
    assert_eq!(res.vectors_created, 1);
    assert_eq!(res.vectors_released, 1);
}

#[test]
fn failed_context_creation_surfaces_as_a_backend_error() {
    // A nonzero status from the context-creation call yields a typed
    // error and no context: nothing exists to release or observe.
    let err = DeviceResource::new(7).unwrap_err();
    assert_eq!(err, CumlError::Backend { op: BackendOp::CreateContext, code: 7 });
}

#[test]
fn context_is_created_and_released_once_by_ownership() {
    // The context is an owned value: its release consumes it, so a second
    // release, or a release of a context never created, does not compile.
    let res = DeviceResource::new(0).unwrap();
    res.release();
}

#[test]
fn buffer_create_and_release_are_counted_once_each() {
    let mut res = DeviceResource::new(0).unwrap();
    let a = DeviceVectorFloat::from_slice(&mut res, &bits(&[1.5])).unwrap();
    let b = DeviceVectorInt::from_slice(&mut res, &[4, 5]).unwrap();
    assert_eq!(res.vectors_created, 2);
    assert_eq!(res.vectors_released, 0);
    a.release(&mut res);
    assert_eq!(res.vectors_released, 1);
    b.release(&mut res);
    assert_eq!(res.vectors_created, 2);
    assert_eq!(res.vectors_released, 2);
}

#[test]
fn upload_fault_reports_the_upload_entry_point() {
    let mut res = DeviceResource::new(0).unwrap();
    res.set_fault(BackendOp::UploadVectorFloat, 11);
    let err = DeviceVectorFloat::from_slice(&mut res, &bits(&[1.0])).unwrap_err();
    assert_eq!(err, CumlError::Backend { op: BackendOp::UploadVectorFloat, code: 11 });
    assert_eq!(res.vectors_created, 0);
}

#[test]
fn download_fault_reports_the_download_entry_point() {
    let mut res = DeviceResource::new(0).unwrap();
    let dev = DeviceVectorFloat::from_slice(&mut res, &bits(&[1.0, 2.0])).unwrap();
    res.set_fault(BackendOp::DownloadVectorFloat, 3);
    let err = dev.to_host(&res).unwrap_err();
    assert_eq!(err, CumlError::Backend { op: BackendOp::DownloadVectorFloat, code: 3 });
    res.clear_fault();
    assert_eq!(dev.to_host(&res).unwrap(), bits(&[1.0, 2.0]));
    dev.release(&mut res);
    assert_eq!(res.vectors_created, res.vectors_released);
}
