//! Typed forest-model inference. A model's lifecycle is a small state
//! machine: loading constructs it and eagerly queries its class count;
//! a loaded model supports repeated predictions; releasing it consumes
//! it, so predicting with a model that failed to load — or after its
//! release — is unrepresentable.

use vstd::prelude::*;

use crate::errors::{BackendOp, CumlError};
use crate::sys::device_resource::{buffers_balanced, model_lookup, DeviceResource};
use crate::sys::device_vector::{zero_words, DeviceVectorFloat};
use crate::sys::fil::{has_nul_byte, FilModelHandle};

verus! {

/// The serialized format a forest model is loaded from, mapped to the
/// exact integer codes the backend expects.
#[derive(Debug, Clone, Copy, PartialEq, Eq, Structural)]
pub enum ModelType {
    /// A gradient-boosted tree model in binary form.
    XGBoost,
    /// A gradient-boosted tree model in JSON form.
    XGBoostJSON,
    /// A gradient-boosted tree model in LightGBM binary form.
    LightGBM,
}

impl ModelType {
    /// The integer code the backend expects for this format.
    pub open spec fn spec_code(self) -> i32 {
        match self {
            ModelType::XGBoost => 0,
            ModelType::XGBoostJSON => 1,
            ModelType::LightGBM => 2,
        }
    }

    /// Translate the format to the backend's integer code.
    pub fn code(self) -> (c: i32)
        ensures
            c == self.spec_code(),
    {
        match self {
            ModelType::XGBoost => 0,
            ModelType::XGBoostJSON => 1,
            ModelType::LightGBM => 2,
        }
    }
}

/// The inference algorithm variant, mapped to the exact integer codes the
/// backend expects.
#[derive(Debug, Clone, Copy, PartialEq, Eq, Structural)]
pub enum Algo {
    /// Choose automatically from the forest's storage.
    AlgoAuto,
    /// One thread block predicts one row.
    Naive,
    /// Tree nodes rearranged into a coalescing-friendly layout.
    TreeReorg,
    /// Tree reorg, predicting several rows per thread block.
    BatchTreeReorg,
}

impl Algo {
    /// The integer code the backend expects for this variant.
    pub open spec fn spec_code(self) -> i32 {
        match self {
            Algo::AlgoAuto => 0,
            Algo::Naive => 1,
            Algo::TreeReorg => 2,
            Algo::BatchTreeReorg => 3,
        }
    }

    /// Translate the variant to the backend's integer code.
    pub fn code(self) -> (c: i32)
        ensures
            c == self.spec_code(),
    {
        match self {
            Algo::AlgoAuto => 0,
            Algo::Naive => 1,
            Algo::TreeReorg => 2,
            Algo::BatchTreeReorg => 3,
        }
    }
}

/// How the imported forest is stored on the device, mapped to the exact
/// integer codes the backend expects.
#[derive(Debug, Clone, Copy, PartialEq, Eq, Structural)]
pub enum StorageType {
    /// Decide automatically.
    Auto,
    /// Import the forest as dense.
    Dense,
    /// Import the forest as sparse with 16-byte nodes.
    Sparse,
    /// Import the forest as sparse with 8-byte nodes.
    Sparse8,
}

impl StorageType {
    /// The integer code the backend expects for this storage.
    pub open spec fn spec_code(self) -> i32 {
        match self {
            StorageType::Auto => 0,
            StorageType::Dense => 1,
            StorageType::Sparse => 2,
            StorageType::Sparse8 => 3,
        }
    }

    /// Translate the storage to the backend's integer code.
    pub fn code(self) -> (c: i32)
        ensures
            c == self.spec_code(),
    {
        match self {
            StorageType::Auto => 0,
            StorageType::Dense => 1,
            StorageType::Sparse => 2,
            StorageType::Sparse8 => 3,
        }
    }
}

/// Entry points a forest prediction goes through.
pub open spec fn fil_predict_blocked(res: DeviceResource) -> bool {
    ||| res.faulted(BackendOp::UploadVectorFloat)
    ||| res.faulted(BackendOp::CreateVectorFloat)
    ||| res.faulted(BackendOp::FilPredict)
    ||| res.faulted(BackendOp::DownloadVectorFloat)
}

/// A loaded forest model. The only way to obtain one is the loading
/// constructor, so a `Model` value is always a successfully loaded model;
/// releasing it consumes the value.
#[derive(Debug)]
pub struct Model {
    handle: FilModelHandle,
}

impl Model {
    /// The class count the model itself reported when it was loaded.
    pub closed spec fn spec_num_class(self) -> usize {
        self.handle.spec_num_class()
    }

    /// Load a forest model from `model_path` (the byte sequence handed to
    /// the backend, NUL-terminated there). A path with an embedded NUL
    /// byte is rejected as `InvalidPath` before any backend call; a path
    /// under which the backend has no model fails as a `load_model`
    /// backend error; otherwise the model is loaded and its class count
    /// queried eagerly, so that a loaded model always knows it. On
    /// failure no model exists and nothing needs releasing. `threshold`
    /// is a float bit pattern.
    pub fn new(
        res: &mut DeviceResource,
        model_type: ModelType,
        model_path: &[u8],
        algo: Algo,
        classification: bool,
        threshold: u32,
        storage_type: StorageType,
        block_per_sm: i32,
        thread_per_tree: i32,
        n_items: i32,
    ) -> (r: Result<Model, CumlError>)
        requires
            old(res).models_created < u64::MAX,
        ensures
            r is Ok <==> {
                &&& !has_nul_byte(model_path@)
                &&& !old(res).faulted(BackendOp::LoadModel)
                &&& model_lookup(old(res).models@, model_path@) is Some
            },
            r matches Ok(m) ==> {
                &&& Some(m.spec_num_class()) == model_lookup(old(res).models@, model_path@)
                &&& *final(res) == (DeviceResource {
                    models_created: (old(res).models_created + 1) as u64,
                    ..*old(res)
                })
            },
            has_nul_byte(model_path@) ==> r == Err::<Model, CumlError>(CumlError::InvalidPath),
            !has_nul_byte(model_path@) && old(res).faulted(BackendOp::LoadModel) ==> r == Err::<
                Model,
                CumlError,
            >(CumlError::Backend { op: BackendOp::LoadModel, code: old(res).fault_code }),
            !has_nul_byte(model_path@) && !old(res).faulted(BackendOp::LoadModel) && model_lookup(
                old(res).models@,
                model_path@,
            ) is None ==> r == Err::<Model, CumlError>(CumlError::Backend {
                op: BackendOp::LoadModel,
                code: crate::sys::fil::STATUS_MODEL_NOT_FOUND,
            }),
            r is Err ==> *final(res) == *old(res),
    {
        let handle = match crate::sys::fil::fil_load_model(
            res,
            model_type.code(),
            model_path,
            algo.code(),
            classification,
            threshold,
            storage_type.code(),
            block_per_sm,
            thread_per_tree,
            n_items,
        ) {
            Ok(h) => h,
            Err(e) => {
                return Err(e);
            },
        };
        Ok(Model { handle })
    }

    /// The class count the model reported at load time. Output buffers
    /// for class probabilities are sized from this query, never from a
    /// fixed constant.
    pub fn num_class(&self) -> (r: usize)
        ensures
            r == self.spec_num_class(),
    {
        self.handle.num_class()
    }

    /// Predict for `num_row` samples resident in `data` (row-major float
    /// bit patterns). When class probabilities are requested the output
    /// has exactly `num_row * num_class` entries, `num_class` being the
    /// count this model reported at load time; otherwise it has exactly
    /// `num_row` entries. On failure the error names the entry point that
    /// failed and no result is observable. Every device buffer acquired
    /// is released before returning.
    pub fn predict(
        &self,
        res: &mut DeviceResource,
        data: &[u32],
        num_row: usize,
        output_class_probabilities: bool,
    ) -> (r: Result<Vec<u32>, CumlError>)
        requires
            output_class_probabilities ==> num_row * self.spec_num_class() <= usize::MAX,
            old(res).vectors_created + 2 <= u64::MAX,
            old(res).vectors_released + 2 <= u64::MAX,
        ensures
            buffers_balanced(*old(res), *final(res)),
            r is Ok <==> !fil_predict_blocked(*old(res)),
            r is Ok ==> final(res).vectors_created == old(res).vectors_created + 2,
            r matches Ok(out) ==> out@.len() == if output_class_probabilities {
                num_row * self.spec_num_class()
            } else {
                num_row as int
            },
            r matches Ok(out) ==> out@ == zero_words(out@.len() as int),
            r matches Err(e) ==> (old(res).fault_op matches Some(op) && e == (CumlError::Backend {
                op,
                code: old(res).fault_code,
            })),
    {
        let dev_data = match DeviceVectorFloat::from_slice(res, data) {
            Ok(v) => v,
            Err(e) => {
                return Err(e);
            },
        };
        let out_len: usize = if output_class_probabilities {
            num_row * self.handle.num_class()
        } else {
            num_row
        };
        let mut preds = match DeviceVectorFloat::new(res, out_len) {
            Ok(v) => v,
            Err(e) => {
                dev_data.release(res);
                return Err(e);
            },
        };
        match crate::sys::fil::fil_predict(
            res,
            &self.handle,
            &dev_data,
            num_row,
            output_class_probabilities,
            &mut preds,
        ) {
            Ok(()) => {},
            Err(e) => {
                preds.release(res);
                dev_data.release(res);
                return Err(e);
            },
        }
        let host_preds = match preds.to_host(res) {
            Ok(v) => v,
            Err(e) => {
                preds.release(res);
                dev_data.release(res);
                return Err(e);
            },
        };
        preds.release(res);
        dev_data.release(res);
        Ok(host_preds)
    }

    /// Free the loaded model, exactly once: consuming the value is the
    /// release, and the context counts it.
    pub fn release(self, res: &mut DeviceResource)
        requires
            old(res).models_released < u64::MAX,
        ensures
            *final(res) == (DeviceResource {
                models_released: (old(res).models_released + 1) as u64,
                ..*old(res)
            }),
    {
        crate::sys::fil::fil_free_model(res, self.handle);
    }
}

} // verus!
