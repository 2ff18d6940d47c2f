use cuml::errors::{BackendOp, CumlError};
use cuml::linear_regression::{Algo, LinearRegression, Ridge};
use cuml::sys::device_resource::DeviceResource;

fn bits(values: &[f32]) -> Vec<u32> {
    values.iter().map(|v| v.to_bits()).collect()
}

#[test]
fn ols_fit_sizes_coefficients_by_feature_count() {
    let mut res = DeviceResource::new(0).unwrap();
    let mut model = LinearRegression::new(true, false, Algo::Eig);
    let data = bits(&[1.0, 2.0, 2.0, 3.0, 3.0, 4.0, 4.0, 5.0]);
    let targets = bits(&[3.0, 5.0, 7.0, 9.0]);
    model.fit(&mut res, &data, 4, 2, &targets).unwrap();
    let (coef, intercept) = model.get_params();
    assert_eq!(coef.len(), 2);
    assert_eq!(f32::from_bits(intercept), 0.0);
    assert_eq!(res.vectors_created, 3);
    assert_eq!(res.vectors_released, 3);
}

#[test]
fn ols_predict_returns_one_output_per_row() {
    let mut res = DeviceResource::new(0).unwrap();
    let mut model = LinearRegression::new(true, false, Algo::Svd);
    let data = bits(&[1.0, 2.0, 3.0, 4.0, 5.0, 6.0]);
    let targets = bits(&[1.0, 2.0, 3.0]);
    model.fit(&mut res, &data, 3, 2, &targets).unwrap();
    let preds = model.predict(&mut res, &data, 3, 2).unwrap();
    assert_eq!(preds.len(), 3);
    assert_eq!(res.vectors_created, res.vectors_released);
}

#[test]
fn predict_before_fit_is_not_fitted() {
    let mut res = DeviceResource::new(0).unwrap();
    let model = LinearRegression::new(true, false, Algo::Qr);
    let data = bits(&[1.0, 2.0]);
    let err = model.predict(&mut res, &data, 2, 1).unwrap_err();
    assert_eq!(err, CumlError::NotFitted);
    assert_eq!(res.vectors_created, 0);

    let ridge = Ridge::new(0.5f32.to_bits(), true, false, Algo::Eig);
    let err = ridge.predict(&mut res, &data, 2, 1).unwrap_err();
    assert_eq!(err, CumlError::NotFitted);
    assert_eq!(res.vectors_created, 0);
}

#[test]
fn ols_fit_fault_leaves_model_unfitted_and_buffers_balanced() {
    let mut res = DeviceResource::new(0).unwrap();
    let mut model = LinearRegression::new(false, false, Algo::Eig);
    let data = bits(&[1.0, 2.0, 3.0, 4.0]);
    let targets = bits(&[1.0, 2.0, 3.0, 4.0]);
    res.set_fault(BackendOp::OlsFit, 21);
    let err = model.fit(&mut res, &data, 4, 1, &targets).unwrap_err();
    assert_eq!(err, CumlError::Backend { op: BackendOp::OlsFit, code: 21 });
    assert!(model.coef.is_none());
    assert!(model.intercept.is_none());
    assert_eq!(res.vectors_created, 3);
    assert_eq!(res.vectors_released, 3);
    // The model still fits once the fault is gone.
    res.clear_fault();
    model.fit(&mut res, &data, 4, 1, &targets).unwrap();
    assert!(model.coef.is_some());
}

#[test]
fn set_params_then_get_params_roundtrips() {
    let mut model = LinearRegression::new(true, true, Algo::Svd);
    let coef = bits(&[0.25, -1.5, 3.0]);
    model.set_params(&coef, 2.5f32.to_bits());
    let (got_coef, got_intercept) = model.get_params();
    assert_eq!(got_coef, &coef);
    assert_eq!(f32::from_bits(got_intercept), 2.5);
}

#[test]
fn set_params_enables_predict() {
    let mut res = DeviceResource::new(0).unwrap();
    let mut model = LinearRegression::new(true, false, Algo::Eig);
    let coef = bits(&[1.0, 1.0]);
    model.set_params(&coef, 0.0f32.to_bits());
    let data = bits(&[1.0, 2.0, 3.0, 4.0]);
    let preds = model.predict(&mut res, &data, 2, 2).unwrap();
    assert_eq!(preds.len(), 2);
}

#[test]
fn ridge_fit_predict_and_params() {
    let mut res = DeviceResource::new(0).unwrap();
    let mut model = Ridge::new(1.0f32.to_bits(), true, false, Algo::Eig);
    let data = bits(&[1.0, 2.0, 3.0, 4.0, 5.0, 6.0]);
    let targets = bits(&[1.0, 2.0, 3.0]);
    model.fit(&mut res, &data, 3, 2, &targets).unwrap();
    let (coef, _intercept) = model.get_params();
    assert_eq!(coef.len(), 2);
    let preds = model.predict(&mut res, &data, 3, 2).unwrap();
    assert_eq!(preds.len(), 3);
    assert_eq!(res.vectors_created, res.vectors_released);
}

#[test]
fn ridge_fit_fault_names_the_ridge_entry_point() {
    let mut res = DeviceResource::new(0).unwrap();
    let mut model = Ridge::new(1.0f32.to_bits(), false, false, Algo::Svd);
    let data = bits(&[1.0, 2.0]);
    let targets = bits(&[1.0, 2.0]);
    res.set_fault(BackendOp::RidgeFit, 5);
    let err = model.fit(&mut res, &data, 2, 1, &targets).unwrap_err();
    assert_eq!(err, CumlError::Backend { op: BackendOp::RidgeFit, code: 5 });
    assert!(model.coef.is_none());
}

#[test]
fn ridge_set_params_then_get_params_roundtrips() {
    let mut model = Ridge::new(2.0f32.to_bits(), false, true, Algo::Qr);
    let coef = bits(&[7.0]);
    model.set_params(&coef, (-1.0f32).to_bits());
    let (got_coef, got_intercept) = model.get_params();
    assert_eq!(got_coef, &coef);
    assert_eq!(f32::from_bits(got_intercept), -1.0);
}

#[test]
fn predict_download_fault_propagates_and_balances() {
    let mut res = DeviceResource::new(0).unwrap();
    let mut model = LinearRegression::new(true, false, Algo::Eig);
    let data = bits(&[1.0, 2.0]);
    let targets = bits(&[1.0, 2.0]);
    model.fit(&mut res, &data, 2, 1, &targets).unwrap();
    res.set_fault(BackendOp::GemmPredict, 8);
    let err = model.predict(&mut res, &data, 2, 1).unwrap_err();
    assert_eq!(err, CumlError::Backend { op: BackendOp::GemmPredict, code: 8 });
    assert_eq!(res.vectors_created, res.vectors_released);
}
