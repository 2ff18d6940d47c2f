//! Typed linear-model bindings: ordinary least squares and ridge
//! regression. A model owns its fitted coefficients as plain host data
//! (float bit patterns); fitting and predicting follow the one fixed
//! binding shape, with every device buffer released on every exit path.

use vstd::prelude::*;

use crate::errors::{BackendOp, CumlError};
use crate::sys::device_resource::{buffers_balanced, DeviceResource};
use crate::sys::device_vector::{copy_words, zero_words, DeviceVectorFloat};

verus! {

/// The solver the backend uses for a least-squares fit, mapped to the
/// exact integer codes the backend expects.
#[derive(Debug, Clone, Copy, PartialEq, Eq, Structural)]
pub enum Algo {
    Svd,
    Eig,
    Qr,
}

impl Algo {
    /// The integer code the backend expects for this solver.
    pub open spec fn spec_code(self) -> i32 {
        match self {
            Algo::Svd => 0,
            Algo::Eig => 1,
            Algo::Qr => 2,
        }
    }

    /// Translate the solver to the backend's integer code.
    pub fn code(self) -> (c: i32)
        ensures
            c == self.spec_code(),
    {
        match self {
            Algo::Svd => 0,
            Algo::Eig => 1,
            Algo::Qr => 2,
        }
    }
}

/// Entry points a least-squares or ridge fit goes through; the two fits
/// differ only in the solver entry point itself.
pub open spec fn linear_fit_blocked(res: DeviceResource, solver: BackendOp) -> bool {
    ||| res.faulted(BackendOp::UploadVectorFloat)
    ||| res.faulted(BackendOp::CreateVectorFloat)
    ||| res.faulted(solver)
    ||| res.faulted(BackendOp::DownloadVectorFloat)
}

/// Entry points a linear prediction goes through.
pub open spec fn linear_predict_blocked(res: DeviceResource) -> bool {
    ||| res.faulted(BackendOp::UploadVectorFloat)
    ||| res.faulted(BackendOp::CreateVectorFloat)
    ||| res.faulted(BackendOp::GemmPredict)
    ||| res.faulted(BackendOp::DownloadVectorFloat)
}

/// The shared prediction path: upload the samples and the coefficients,
/// run the dense prediction kernel, download one output per sample, and
/// release all three buffers on every exit path.
fn predict_with(
    res: &mut DeviceResource,
    data: &[u32],
    num_row: usize,
    num_col: usize,
    coef: &Vec<u32>,
    intercept: u32,
) -> (r: Result<Vec<u32>, CumlError>)
    requires
        data@.len() == num_row * num_col,
        coef@.len() == num_col,
        old(res).vectors_created + 3 <= u64::MAX,
        old(res).vectors_released + 3 <= u64::MAX,
    ensures
        buffers_balanced(*old(res), *final(res)),
        r is Ok <==> !linear_predict_blocked(*old(res)),
        r is Ok ==> final(res).vectors_created == old(res).vectors_created + 3,
        r matches Ok(out) ==> {
            &&& out@ == zero_words(num_row as int)
            &&& out@.len() == num_row
        },
        r matches Err(e) ==> (old(res).fault_op matches Some(op) && e == (CumlError::Backend {
            op,
            code: old(res).fault_code,
        })),
{
    let dev_data = match DeviceVectorFloat::from_slice(res, data) {
        Ok(v) => v,
        Err(e) => {
            return Err(e);
        },
    };
    let dev_coef = match DeviceVectorFloat::from_slice(res, coef.as_slice()) {
        Ok(v) => v,
        Err(e) => {
            dev_data.release(res);
            return Err(e);
        },
    };
    let mut preds = match DeviceVectorFloat::new(res, num_row) {
        Ok(v) => v,
        Err(e) => {
            dev_coef.release(res);
            dev_data.release(res);
            return Err(e);
        },
    };
    match crate::sys::linear_regression::gemm_predict(
        res,
        &dev_data,
        num_row,
        num_col,
        &dev_coef,
        intercept,
        &mut preds,
    ) {
        Ok(()) => {},
        Err(e) => {
            preds.release(res);
            dev_coef.release(res);
            dev_data.release(res);
            return Err(e);
        },
    }
    let host_preds = match preds.to_host(res) {
        Ok(v) => v,
        Err(e) => {
            preds.release(res);
            dev_coef.release(res);
            dev_data.release(res);
            return Err(e);
        },
    };
    preds.release(res);
    dev_coef.release(res);
    dev_data.release(res);
    Ok(host_preds)
}

/// An ordinary least squares model: configuration plus, after a
/// successful fit, one coefficient per feature and an intercept, held as
/// plain host data.
pub struct LinearRegression {
    pub coef: Option<Vec<u32>>,
    pub intercept: Option<u32>,
    pub fit_intercept: bool,
    pub normalize: bool,
    pub algo: Algo,
}

impl LinearRegression {
    /// An unfitted model with the given configuration; no resource is
    /// acquired until `fit`.
    pub fn new(fit_intercept: bool, normalize: bool, algo: Algo) -> (r: LinearRegression)
        ensures
            r.coef is None,
            r.intercept is None,
            r.fit_intercept == fit_intercept,
            r.normalize == normalize,
            r.algo == algo,
    {
        LinearRegression { coef: None, intercept: None, fit_intercept, normalize, algo }
    }

    /// Fit on `num_row` samples of `num_col` features stored row-major in
    /// `data` as float bit patterns, against one target per sample.
    /// Succeeds exactly when no entry point on its path is set up to
    /// fail; the model then holds exactly `num_col` coefficients and an
    /// intercept. On failure the error names the entry point that failed
    /// and the model is left exactly as it was. Every device buffer
    /// acquired is released before returning.
    pub fn fit(
        &mut self,
        res: &mut DeviceResource,
        data: &[u32],
        num_row: usize,
        num_col: usize,
        labels: &[u32],
    ) -> (r: Result<(), CumlError>)
        requires
            data@.len() == num_row * num_col,
            labels@.len() == num_row,
            old(res).vectors_created + 3 <= u64::MAX,
            old(res).vectors_released + 3 <= u64::MAX,
        ensures
            buffers_balanced(*old(res), *final(res)),
            r is Ok <==> !linear_fit_blocked(*old(res), BackendOp::OlsFit),
            r is Ok ==> final(res).vectors_created == old(res).vectors_created + 3,
            r is Ok ==> {
                &&& final(self).coef matches Some(c) && c@ == zero_words(num_col as int)
                    && c@.len() == num_col
                &&& final(self).intercept == Some(0u32)
                &&& *final(self) == (LinearRegression {
                    coef: final(self).coef,
                    intercept: final(self).intercept,
                    ..*old(self)
                })
            },
            r matches Err(e) ==> {
                &&& *final(self) == *old(self)
                &&& old(res).fault_op matches Some(op) && e == (CumlError::Backend {
                    op,
                    code: old(res).fault_code,
                })
            },
    {
        let dev_data = match DeviceVectorFloat::from_slice(res, data) {
            Ok(v) => v,
            Err(e) => {
                return Err(e);
            },
        };
        let dev_labels = match DeviceVectorFloat::from_slice(res, labels) {
            Ok(v) => v,
            Err(e) => {
                dev_data.release(res);
                return Err(e);
            },
        };
        let mut dev_coef = match DeviceVectorFloat::new(res, num_col) {
            Ok(v) => v,
            Err(e) => {
                dev_labels.release(res);
                dev_data.release(res);
                return Err(e);
            },
        };
        let intercept = match crate::sys::linear_regression::ols_fit(
            res,
            &dev_data,
            num_row,
            num_col,
            &dev_labels,
            self.fit_intercept,
            self.normalize,
            self.algo.code(),
            &mut dev_coef,
        ) {
            Ok(b) => b,
            Err(e) => {
                dev_coef.release(res);
                dev_labels.release(res);
                dev_data.release(res);
                return Err(e);
            },
        };
        let host_coef = match dev_coef.to_host(res) {
            Ok(v) => v,
            Err(e) => {
                dev_coef.release(res);
                dev_labels.release(res);
                dev_data.release(res);
                return Err(e);
            },
        };
        dev_coef.release(res);
        dev_labels.release(res);
        dev_data.release(res);
        self.coef = Some(host_coef);
        self.intercept = Some(intercept);
        Ok(())
    }

    /// Predict one output per sample for `num_row` samples of `num_col`
    /// features. Fails with `NotFitted` — touching no resource — when the
    /// model has no coefficients or no intercept; otherwise succeeds
    /// exactly when no entry point on its path is set up to fail, and the
    /// returned vector has exactly one entry per sample. Every device
    /// buffer acquired is released before returning.
    pub fn predict(&self, res: &mut DeviceResource, data: &[u32], num_row: usize, num_col: usize) -> (r:
        Result<Vec<u32>, CumlError>)
        requires
            data@.len() == num_row * num_col,
            self.coef matches Some(c) ==> c@.len() == num_col,
            old(res).vectors_created + 3 <= u64::MAX,
            old(res).vectors_released + 3 <= u64::MAX,
        ensures
            buffers_balanced(*old(res), *final(res)),
            self.coef is None || self.intercept is None ==> {
                &&& r == Err::<Vec<u32>, CumlError>(CumlError::NotFitted)
                &&& *final(res) == *old(res)
            },
            r is Ok ==> final(res).vectors_created == old(res).vectors_created + 3,
            self.coef is Some && self.intercept is Some ==> {
                &&& (r is Ok <==> !linear_predict_blocked(*old(res)))
                &&& (r matches Err(e) ==> (old(res).fault_op matches Some(op) && e
                    == (CumlError::Backend { op, code: old(res).fault_code })))
            },
            r matches Ok(out) ==> {
                &&& out@ == zero_words(num_row as int)
                &&& out@.len() == num_row
            },
    {
        let coef = match &self.coef {
            Some(c) => c,
            None => {
                return Err(CumlError::NotFitted);
            },
        };
        let intercept = match self.intercept {
            Some(b) => b,
            None => {
                return Err(CumlError::NotFitted);
            },
        };
        predict_with(res, data, num_row, num_col, coef, intercept)
    }

    /// The fitted coefficients and the intercept (zero when no intercept
    /// is set). Asking for parameters of a model that has none is a
    /// caller error, ruled out by the precondition.
    pub fn get_params(&self) -> (r: (&Vec<u32>, u32))
        requires
            self.coef is Some,
        ensures
            self.coef matches Some(c) && r.0@ == c@,
            r.1 == self.intercept.unwrap_or(0u32),
    {
        let coef = match &self.coef {
            Some(c) => c,
            None => {
                return vstd::pervasive::unreached();
            },
        };
        (coef, self.intercept.unwrap_or(0))
    }

    /// Overwrite the model's parameters with the given coefficients and
    /// intercept, leaving the configuration untouched.
    pub fn set_params(&mut self, coef: &[u32], intercept: u32)
        ensures
            final(self).coef matches Some(c) && c@ == coef@,
            final(self).intercept == Some(intercept),
            *final(self) == (LinearRegression {
                coef: final(self).coef,
                intercept: Some(intercept),
                ..*old(self)
            }),
    {
        self.coef = Some(copy_words(coef));
        self.intercept = Some(intercept);
    }
}

/// A ridge regression model: least squares with regularization strength
/// `alpha` (a float bit pattern); otherwise shaped exactly like
/// `LinearRegression`.
pub struct Ridge {
    pub coef: Option<Vec<u32>>,
    pub intercept: Option<u32>,
    pub alpha: u32,
    pub fit_intercept: bool,
    pub normalize: bool,
    pub algo: Algo,
}

impl Ridge {
    /// An unfitted model with the given configuration; no resource is
    /// acquired until `fit`.
    pub fn new(alpha: u32, fit_intercept: bool, normalize: bool, algo: Algo) -> (r: Ridge)
        ensures
            r.coef is None,
            r.intercept is None,
            r.alpha == alpha,
            r.fit_intercept == fit_intercept,
            r.normalize == normalize,
            r.algo == algo,
    {
        Ridge { coef: None, intercept: None, alpha, fit_intercept, normalize, algo }
    }

    /// Fit on `num_row` samples of `num_col` features stored row-major in
    /// `data` as float bit patterns, against one target per sample, with
    /// the model's regularization strength. The contract is that of the
    /// least-squares fit, with the ridge solver entry point in its place.
    pub fn fit(
        &mut self,
        res: &mut DeviceResource,
        data: &[u32],
        num_row: usize,
        num_col: usize,
        labels: &[u32],
    ) -> (r: Result<(), CumlError>)
        requires
            data@.len() == num_row * num_col,
            labels@.len() == num_row,
            old(res).vectors_created + 3 <= u64::MAX,
            old(res).vectors_released + 3 <= u64::MAX,
        ensures
            buffers_balanced(*old(res), *final(res)),
            r is Ok <==> !linear_fit_blocked(*old(res), BackendOp::RidgeFit),
            r is Ok ==> final(res).vectors_created == old(res).vectors_created + 3,
            r is Ok ==> {
                &&& final(self).coef matches Some(c) && c@ == zero_words(num_col as int)
                    && c@.len() == num_col
                &&& final(self).intercept == Some(0u32)
                &&& *final(self) == (Ridge {
                    coef: final(self).coef,
                    intercept: final(self).intercept,
                    ..*old(self)
                })
            },
            r matches Err(e) ==> {
                &&& *final(self) == *old(self)
                &&& old(res).fault_op matches Some(op) && e == (CumlError::Backend {
                    op,
                    code: old(res).fault_code,
                })
            },
    {
        let dev_data = match DeviceVectorFloat::from_slice(res, data) {
            Ok(v) => v,
            Err(e) => {
                return Err(e);
            },
        };
        let dev_labels = match DeviceVectorFloat::from_slice(res, labels) {
            Ok(v) => v,
            Err(e) => {
                dev_data.release(res);
                return Err(e);
            },
        };
        let mut dev_coef = match DeviceVectorFloat::new(res, num_col) {
            Ok(v) => v,
            Err(e) => {
                dev_labels.release(res);
                dev_data.release(res);
                return Err(e);
            },
        };
        let intercept = match crate::sys::linear_regression::ridge_fit(
            res,
            &dev_data,
            num_row,
            num_col,
            &dev_labels,
            self.alpha,
            self.fit_intercept,
            self.normalize,
            self.algo.code(),
            &mut dev_coef,
        ) {
            Ok(b) => b,
            Err(e) => {
                dev_coef.release(res);
                dev_labels.release(res);
                dev_data.release(res);
                return Err(e);
            },
        };
        let host_coef = match dev_coef.to_host(res) {
            Ok(v) => v,
            Err(e) => {
                dev_coef.release(res);
                dev_labels.release(res);
                dev_data.release(res);
                return Err(e);
            },
        };
        dev_coef.release(res);
        dev_labels.release(res);
        dev_data.release(res);
        self.coef = Some(host_coef);
        self.intercept = Some(intercept);
        Ok(())
    }

    /// Predict one output per sample; the contract is that of the
    /// least-squares predict.
    pub fn predict(&self, res: &mut DeviceResource, data: &[u32], num_row: usize, num_col: usize) -> (r:
        Result<Vec<u32>, CumlError>)
        requires
            data@.len() == num_row * num_col,
            self.coef matches Some(c) ==> c@.len() == num_col,
            old(res).vectors_created + 3 <= u64::MAX,
            old(res).vectors_released + 3 <= u64::MAX,
        ensures
            buffers_balanced(*old(res), *final(res)),
            self.coef is None || self.intercept is None ==> {
                &&& r == Err::<Vec<u32>, CumlError>(CumlError::NotFitted)
                &&& *final(res) == *old(res)
            },
            r is Ok ==> final(res).vectors_created == old(res).vectors_created + 3,
            self.coef is Some && self.intercept is Some ==> {
                &&& (r is Ok <==> !linear_predict_blocked(*old(res)))
                &&& (r matches Err(e) ==> (old(res).fault_op matches Some(op) && e
                    == (CumlError::Backend { op, code: old(res).fault_code })))
            },
            r matches Ok(out) ==> {
                &&& out@ == zero_words(num_row as int)
                &&& out@.len() == num_row
            },
    {
        let coef = match &self.coef {
            Some(c) => c,
            None => {
                return Err(CumlError::NotFitted);
            },
        };
        let intercept = match self.intercept {
            Some(b) => b,
            None => {
                return Err(CumlError::NotFitted);
            },
        };
        predict_with(res, data, num_row, num_col, coef, intercept)
    }

    /// The fitted coefficients and the intercept (zero when no intercept
    /// is set). Asking for parameters of a model that has none is a
    /// caller error, ruled out by the precondition.
    pub fn get_params(&self) -> (r: (&Vec<u32>, u32))
        requires
            self.coef is Some,
        ensures
            self.coef matches Some(c) && r.0@ == c@,
            r.1 == self.intercept.unwrap_or(0u32),
    {
        let coef = match &self.coef {
            Some(c) => c,
            None => {
                return vstd::pervasive::unreached();
            },
        };
        (coef, self.intercept.unwrap_or(0))
    }

    /// Overwrite the model's parameters with the given coefficients and
    /// intercept, leaving the configuration untouched.
    pub fn set_params(&mut self, coef: &[u32], intercept: u32)
        ensures
            final(self).coef matches Some(c) && c@ == coef@,
            final(self).intercept == Some(intercept),
            *final(self) == (Ridge {
                coef: final(self).coef,
                intercept: Some(intercept),
                ..*old(self)
            }),
    {
        self.coef = Some(copy_words(coef));
        self.intercept = Some(intercept);
    }
}

} // verus!
