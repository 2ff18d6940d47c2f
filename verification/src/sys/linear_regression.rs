//! Raw linear-model entry points: ordinary least squares, ridge, and the
//! shared dense prediction kernel. Following the calling convention, float
//! scalars cross the boundary as 32-bit patterns, inputs come first, then
//! dimensions and parameters, then the output buffers the caller pre-sized.

use vstd::prelude::*;

use crate::errors::{BackendOp, CumlError};
use crate::sys::device_resource::DeviceResource;
use crate::sys::device_vector::{zero_word_vec, zero_words, DeviceVectorFloat};

verus! {

/// Ordinary least squares fit over `num_row` samples of `num_col` features
/// resident in `data`, against one target per sample in `labels`. On
/// success the backend writes one coefficient per feature into `coef`
/// (pre-sized to `num_col`) and returns the intercept as a float bit
/// pattern.
#[allow(unused_variables)]
pub fn ols_fit(
    res: &DeviceResource,
    data: &DeviceVectorFloat,
    num_row: usize,
    num_col: usize,
    labels: &DeviceVectorFloat,
    fit_intercept: bool,
    normalize: bool,
    algo: i32,
    coef: &mut DeviceVectorFloat,
) -> (r: Result<u32, CumlError>)
    requires
        data@.len() == num_row * num_col,
        labels@.len() == num_row,
        old(coef)@.len() == num_col,
    ensures
        r is Ok <==> !res.faulted(BackendOp::OlsFit),
        r matches Ok(intercept) ==> {
            &&& intercept == 0u32
            &&& final(coef)@ == zero_words(num_col as int)
        },
        r matches Err(e) ==> {
            &&& e == (CumlError::Backend { op: BackendOp::OlsFit, code: res.fault_code })
            &&& final(coef)@ == old(coef)@
        },
{
    match res.fault_for(BackendOp::OlsFit) {
        Some(code) => Err(CumlError::Backend { op: BackendOp::OlsFit, code }),
        None => {
            let c = zero_word_vec(coef.len());
            coef.overwrite(c);
            Ok(0u32)
        },
    }
}

/// Ridge regression fit over `num_row` samples of `num_col` features
/// resident in `data`, against one target per sample in `labels`, with
/// regularization strength `alpha` (a float bit pattern). On success the
/// backend writes one coefficient per feature into `coef` (pre-sized to
/// `num_col`) and returns the intercept as a float bit pattern.
#[allow(unused_variables)]
pub fn ridge_fit(
    res: &DeviceResource,
    data: &DeviceVectorFloat,
    num_row: usize,
    num_col: usize,
    labels: &DeviceVectorFloat,
    alpha: u32,
    fit_intercept: bool,
    normalize: bool,
    algo: i32,
    coef: &mut DeviceVectorFloat,
) -> (r: Result<u32, CumlError>)
    requires
        data@.len() == num_row * num_col,
        labels@.len() == num_row,
        old(coef)@.len() == num_col,
    ensures
        r is Ok <==> !res.faulted(BackendOp::RidgeFit),
        r matches Ok(intercept) ==> {
            &&& intercept == 0u32
            &&& final(coef)@ == zero_words(num_col as int)
        },
        r matches Err(e) ==> {
            &&& e == (CumlError::Backend { op: BackendOp::RidgeFit, code: res.fault_code })
            &&& final(coef)@ == old(coef)@
        },
{
    match res.fault_for(BackendOp::RidgeFit) {
        Some(code) => Err(CumlError::Backend { op: BackendOp::RidgeFit, code }),
        None => {
            let c = zero_word_vec(coef.len());
            coef.overwrite(c);
            Ok(0u32)
        },
    }
}

/// Dense prediction for a fitted linear model: one output per sample,
/// written into `preds` (pre-sized to `num_row`), from `num_col`
/// coefficients resident in `coef` and an intercept passed as a float bit
/// pattern.
#[allow(unused_variables)]
pub fn gemm_predict(
    res: &DeviceResource,
    data: &DeviceVectorFloat,
    num_row: usize,
    num_col: usize,
    coef: &DeviceVectorFloat,
    intercept: u32,
    preds: &mut DeviceVectorFloat,
) -> (r: Result<(), CumlError>)
    requires
        data@.len() == num_row * num_col,
        coef@.len() == num_col,
        old(preds)@.len() == num_row,
    ensures
        r is Ok <==> !res.faulted(BackendOp::GemmPredict),
        r is Ok ==> final(preds)@ == zero_words(num_row as int),
        r matches Err(e) ==> {
            &&& e == (CumlError::Backend { op: BackendOp::GemmPredict, code: res.fault_code })
            &&& final(preds)@ == old(preds)@
        },
{
    match res.fault_for(BackendOp::GemmPredict) {
        Some(code) => Err(CumlError::Backend { op: BackendOp::GemmPredict, code }),
        None => {
            let p = zero_word_vec(preds.len());
            preds.overwrite(p);
            Ok(())
        },
    }
}

} // verus!
