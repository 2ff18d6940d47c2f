//! Raw forest-inference entry points: load a model (eagerly querying its
//! class count), predict with it, and free it. A model path crosses the
//! boundary as a NUL-terminated byte sequence, so a path with an embedded
//! NUL byte is rejected here, before it reaches the backend.

use vstd::prelude::*;

use crate::errors::{BackendOp, CumlError};
use crate::sys::device_resource::{model_lookup, DeviceResource, ModelEntry};
use crate::sys::device_vector::{zero_word_vec, zero_words, DeviceVectorFloat};

verus! {

/// The status the load entry point reports when no model is stored under
/// the given path.
pub const STATUS_MODEL_NOT_FOUND: i32 = 1;

/// `s` holds an embedded NUL byte and cannot cross the C boundary.
pub open spec fn has_nul_byte(s: Seq<u8>) -> bool {
    exists|i: int| 0 <= i < s.len() && s[i] == 0
}

/// Whether `path` holds an embedded NUL byte, computed.
fn contains_nul(path: &[u8]) -> (r: bool)
    ensures
        r == has_nul_byte(path@),
{
    let mut i: usize = 0;
    while i < path.len()
        invariant
            i <= path@.len(),
            forall|j: int| 0 <= j < i ==> path@[j] != 0,
        decreases path@.len() - i,
    {
        if path[i] == 0 {
            return true;
        }
        i = i + 1;
    }
    false
}

/// Whether two byte slices hold the same bytes.
fn bytes_equal(a: &[u8], b: &[u8]) -> (r: bool)
    ensures
        r == (a@ == b@),
{
    if a.len() != b.len() {
        return false;
    }
    let mut i: usize = 0;
    while i < a.len()
        invariant
            a@.len() == b@.len(),
            i <= a@.len(),
            forall|j: int| 0 <= j < i ==> a@[j] == b@[j],
        decreases a@.len() - i,
    {
        if a[i] != b[i] {
            return false;
        }
        i = i + 1;
    }
    proof {
        assert(a@ =~= b@);
    }
    true
}

/// The class count stored for `path`, or `None`.
fn lookup_model(models: &Vec<ModelEntry>, path: &[u8]) -> (r: Option<usize>)
    ensures
        r == model_lookup(models@, path@),
{
    let mut i: usize = 0;
    proof {
        assert(models@.skip(0) =~= models@);
    }
    while i < models.len()
        invariant
            i <= models@.len(),
            model_lookup(models@, path@) == model_lookup(models@.skip(i as int), path@),
        decreases models@.len() - i,
    {
        if bytes_equal(models[i].path.as_slice(), path) {
            proof {
                assert(models@.skip(i as int)[0] == models@[i as int]);
            }
            return Some(models[i].num_class);
        }
        proof {
            assert(models@.skip(i as int)[0] == models@[i as int]);
            assert(models@.skip(i as int).skip(1) =~= models@.skip(i + 1));
        }
        i = i + 1;
    }
    None
}

/// A loaded forest model: an opaque handle carrying the class count the
/// backend reported when the model was loaded.
#[derive(Debug)]
pub struct FilModelHandle {
    pub(crate) num_class: usize,
}

impl FilModelHandle {
    /// The class count the model reported at load time.
    pub closed spec fn spec_num_class(self) -> usize {
        self.num_class
    }

    /// Query the class count of a loaded model.
    pub fn num_class(&self) -> (r: usize)
        ensures
            r == self.spec_num_class(),
    {
        self.num_class
    }
}

/// Load a forest model from `model_path` and eagerly query its class
/// count. Succeeds exactly when the path is clean of NUL bytes, the load
/// entry point is not set up to fail, and a model is stored under the
/// path; on success the context counts one more loaded model.
#[allow(unused_variables)]
pub fn fil_load_model(
    res: &mut DeviceResource,
    model_type: i32,
    model_path: &[u8],
    algo: i32,
    classification: bool,
    threshold: u32,
    storage_type: i32,
    block_per_sm: i32,
    thread_per_tree: i32,
    n_items: i32,
) -> (r: Result<FilModelHandle, CumlError>)
    requires
        old(res).models_created < u64::MAX,
    ensures
        r is Ok <==> {
            &&& !has_nul_byte(model_path@)
            &&& !old(res).faulted(BackendOp::LoadModel)
            &&& model_lookup(old(res).models@, model_path@) is Some
        },
        r matches Ok(m) ==> {
            &&& Some(m.spec_num_class()) == model_lookup(old(res).models@, model_path@)
            &&& *final(res) == (DeviceResource {
                models_created: (old(res).models_created + 1) as u64,
                ..*old(res)
            })
        },
        has_nul_byte(model_path@) ==> r == Err::<FilModelHandle, CumlError>(CumlError::InvalidPath),
        !has_nul_byte(model_path@) && old(res).faulted(BackendOp::LoadModel) ==> r == Err::<
            FilModelHandle,
            CumlError,
        >(CumlError::Backend { op: BackendOp::LoadModel, code: old(res).fault_code }),
        !has_nul_byte(model_path@) && !old(res).faulted(BackendOp::LoadModel) && model_lookup(
            old(res).models@,
            model_path@,
        ) is None ==> r == Err::<FilModelHandle, CumlError>(CumlError::Backend {
            op: BackendOp::LoadModel,
            code: STATUS_MODEL_NOT_FOUND,
        }),
        r is Err ==> *final(res) == *old(res),
{
    if contains_nul(model_path) {
        return Err(CumlError::InvalidPath);
    }
    match res.fault_for(BackendOp::LoadModel) {
        Some(code) => Err(CumlError::Backend { op: BackendOp::LoadModel, code }),
        None => {
            match lookup_model(&res.models, model_path) {
                Some(num_class) => {
                    res.models_created = res.models_created + 1;
                    Ok(FilModelHandle { num_class })
                },
                None => Err(CumlError::Backend {
                    op: BackendOp::LoadModel,
                    code: STATUS_MODEL_NOT_FOUND,
                }),
            }
        },
    }
}

/// Free a loaded model. Consuming the handle makes the release happen
/// exactly once; the context counts it.
pub fn fil_free_model(res: &mut DeviceResource, model: FilModelHandle)
    requires
        old(res).models_released < u64::MAX,
    ensures
        *final(res) == (DeviceResource {
            models_released: (old(res).models_released + 1) as u64,
            ..*old(res)
        }),
{
    res.models_released = res.models_released + 1;
}

/// Forest-model inference over `num_row` samples resident in `data`. The
/// caller pre-sizes `preds` to `num_row * num_class` when class
/// probabilities are requested — the class count being the one the model
/// itself reported at load time, never a fixed constant — and to
/// `num_row` otherwise; on success the backend fills it.
#[allow(unused_variables)]
pub fn fil_predict(
    res: &DeviceResource,
    model: &FilModelHandle,
    data: &DeviceVectorFloat,
    num_row: usize,
    output_class_probabilities: bool,
    preds: &mut DeviceVectorFloat,
) -> (r: Result<(), CumlError>)
    requires
        old(preds)@.len() == if output_class_probabilities {
            num_row * model.spec_num_class()
        } else {
            num_row as int
        },
    ensures
        r is Ok <==> !res.faulted(BackendOp::FilPredict),
        r is Ok ==> final(preds)@ == zero_words(old(preds)@.len() as int),
        r matches Err(e) ==> {
            &&& e == (CumlError::Backend { op: BackendOp::FilPredict, code: res.fault_code })
            &&& final(preds)@ == old(preds)@
        },
{
    match res.fault_for(BackendOp::FilPredict) {
        Some(code) => Err(CumlError::Backend { op: BackendOp::FilPredict, code }),
        None => {
            let p = zero_word_vec(preds.len());
            preds.overwrite(p);
            Ok(())
        },
    }
}

} // verus!
