//! Typed device buffers: opaque handles to contiguous device-resident
//! regions of 32-bit elements, with host/device transfer operations that
//! preserve length and contents bit for bit.
//!
//! Two monomorphic element kinds exist. The float buffer stores each
//! element as the 32-bit pattern of an IEEE 754 binary32 value (`u32` on
//! the host side); transfers never reinterpret or round, so the pattern a
//! caller uploads is the pattern it downloads. The integer buffer stores
//! 32-bit signed integers.

use vstd::prelude::*;

use crate::errors::{BackendOp, CumlError};
use crate::sys::device_resource::{buffers_balanced, DeviceResource};

verus! {

/// `n` float words, all zero.
pub open spec fn zero_words(n: int) -> Seq<u32> {
    Seq::new(n as nat, |i: int| 0u32)
}

/// `n` integer elements, all zero.
pub open spec fn zero_ints(n: int) -> Seq<i32> {
    Seq::new(n as nat, |i: int| 0i32)
}

/// Copy a host slice of float words into a fresh host vector.
pub(crate) fn copy_words(data: &[u32]) -> (v: Vec<u32>)
    ensures
        v@ == data@,
{
    let mut v: Vec<u32> = Vec::new();
    let mut i: usize = 0;
    while i < data.len()
        invariant
            i <= data@.len(),
            v@ == data@.subrange(0, i as int),
        decreases data@.len() - i,
    {
        v.push(data[i]);
        i = i + 1;
        proof {
            assert(v@ =~= data@.subrange(0, i as int));
        }
    }
    proof {
        assert(v@ =~= data@);
    }
    v
}

/// Copy a host slice of integers into a fresh host vector.
pub(crate) fn copy_ints(data: &[i32]) -> (v: Vec<i32>)
    ensures
        v@ == data@,
{
    let mut v: Vec<i32> = Vec::new();
    let mut i: usize = 0;
    while i < data.len()
        invariant
            i <= data@.len(),
            v@ == data@.subrange(0, i as int),
        decreases data@.len() - i,
    {
        v.push(data[i]);
        i = i + 1;
        proof {
            assert(v@ =~= data@.subrange(0, i as int));
        }
    }
    proof {
        assert(v@ =~= data@);
    }
    v
}

/// A host vector of `n` zero float words.
pub(crate) fn zero_word_vec(n: usize) -> (v: Vec<u32>)
    ensures
        v@ == zero_words(n as int),
{
    let mut v: Vec<u32> = Vec::new();
    let mut i: usize = 0;
    while i < n
        invariant
            i <= n,
            v@ == zero_words(i as int),
        decreases n - i,
    {
        v.push(0);
        i = i + 1;
        proof {
            assert(v@ =~= zero_words(i as int));
        }
    }
    v
}

/// A host vector of `n` zero integers.
pub(crate) fn zero_int_vec(n: usize) -> (v: Vec<i32>)
    ensures
        v@ == zero_ints(n as int),
{
    let mut v: Vec<i32> = Vec::new();
    let mut i: usize = 0;
    while i < n
        invariant
            i <= n,
            v@ == zero_ints(i as int),
        decreases n - i,
    {
        v.push(0);
        i = i + 1;
        proof {
            assert(v@ =~= zero_ints(i as int));
        }
    }
    v
}

/// A device buffer of 32-bit float words. Exclusively owned: the handle is
/// the only reference to the region, and releasing it consumes the handle.
#[derive(Debug)]
pub struct DeviceVectorFloat {
    data: Vec<u32>,
}

impl View for DeviceVectorFloat {
    type V = Seq<u32>;

    /// The device-resident contents, as float bit patterns.
    closed spec fn view(&self) -> Seq<u32> {
        self.data@
    }
}

impl DeviceVectorFloat {
    /// Allocate a zero-initialized device buffer of `size` float words.
    /// `size == 0` is a valid, degenerate allocation whose length is zero.
    pub fn new(res: &mut DeviceResource, size: usize) -> (r: Result<DeviceVectorFloat, CumlError>)
        requires
            old(res).vectors_created < u64::MAX,
        ensures
            r is Ok <==> !old(res).faulted(BackendOp::CreateVectorFloat),
            r matches Ok(v) ==> {
                &&& v@ == zero_words(size as int)
                &&& *final(res) == (DeviceResource {
                    vectors_created: (old(res).vectors_created + 1) as u64,
                    ..*old(res)
                })
            },
            r matches Err(e) ==> {
                &&& e == (CumlError::Backend {
                    op: BackendOp::CreateVectorFloat,
                    code: old(res).fault_code,
                })
                &&& *final(res) == *old(res)
            },
    {
        match res.fault_for(BackendOp::CreateVectorFloat) {
            Some(code) => Err(CumlError::Backend { op: BackendOp::CreateVectorFloat, code }),
            None => {
                let data = zero_word_vec(size);
                res.vectors_created = res.vectors_created + 1;
                Ok(DeviceVectorFloat { data })
            },
        }
    }

    /// Copy `data.len()` float words from the host to a fresh device
    /// buffer; the buffer's logical length equals `data.len()` exactly.
    pub fn from_slice(res: &mut DeviceResource, data: &[u32]) -> (r: Result<
        DeviceVectorFloat,
        CumlError,
    >)
        requires
            old(res).vectors_created < u64::MAX,
        ensures
            r is Ok <==> !old(res).faulted(BackendOp::UploadVectorFloat),
            r matches Ok(v) ==> {
                &&& v@ == data@
                &&& *final(res) == (DeviceResource {
                    vectors_created: (old(res).vectors_created + 1) as u64,
                    ..*old(res)
                })
            },
            r matches Err(e) ==> {
                &&& e == (CumlError::Backend {
                    op: BackendOp::UploadVectorFloat,
                    code: old(res).fault_code,
                })
                &&& *final(res) == *old(res)
            },
    {
        match res.fault_for(BackendOp::UploadVectorFloat) {
            Some(code) => Err(CumlError::Backend { op: BackendOp::UploadVectorFloat, code }),
            None => {
                let data = copy_words(data);
                res.vectors_created = res.vectors_created + 1;
                Ok(DeviceVectorFloat { data })
            },
        }
    }

    /// Query the buffer's element count from the backend. The count always
    /// matches the length at creation time: buffers are never resized.
    pub fn get_size(&self) -> (r: Result<usize, CumlError>)
        ensures
            r matches Ok(n) && n == self@.len(),
    {
        Ok(self.data.len())
    }

    /// The buffer's element count, for use inside the layer.
    pub(crate) fn len(&self) -> (n: usize)
        ensures
            n == self@.len(),
    {
        self.data.len()
    }

    /// Copy the buffer back to a host vector sized by its length; the
    /// returned vector reproduces the device contents exactly.
    pub fn to_host(&self, res: &DeviceResource) -> (r: Result<Vec<u32>, CumlError>)
        ensures
            r is Ok <==> !res.faulted(BackendOp::DownloadVectorFloat),
            r matches Ok(v) ==> v@ == self@,
            r matches Err(e) ==> e == (CumlError::Backend {
                op: BackendOp::DownloadVectorFloat,
                code: res.fault_code,
            }),
    {
        match res.fault_for(BackendOp::DownloadVectorFloat) {
            Some(code) => Err(CumlError::Backend { op: BackendOp::DownloadVectorFloat, code }),
            None => Ok(copy_words(self.data.as_slice())),
        }
    }

    /// Replace the buffer's contents in place, keeping its length; this is
    /// how an algorithm entry point writes results into a buffer the host
    /// created.
    pub(crate) fn overwrite(&mut self, data: Vec<u32>)
        requires
            data@.len() == old(self)@.len(),
        ensures
            final(self)@ == data@,
    {
        self.data = data;
    }

    /// Return the device region to the allocator. Consuming the handle is
    /// what makes this happen exactly once per successful creation.
    pub fn release(self, res: &mut DeviceResource)
        requires
            old(res).vectors_released < u64::MAX,
        ensures
            *final(res) == (DeviceResource {
                vectors_released: (old(res).vectors_released + 1) as u64,
                ..*old(res)
            }),
    {
        res.vectors_released = res.vectors_released + 1;
    }
}

/// A device buffer of 32-bit signed integers. Exclusively owned, like the
/// float buffer.
#[derive(Debug)]
pub struct DeviceVectorInt {
    data: Vec<i32>,
}

impl View for DeviceVectorInt {
    type V = Seq<i32>;

    /// The device-resident contents.
    closed spec fn view(&self) -> Seq<i32> {
        self.data@
    }
}

impl DeviceVectorInt {
    /// Allocate a zero-initialized device buffer of `size` integers.
    /// `size == 0` is a valid, degenerate allocation whose length is zero.
    pub fn new(res: &mut DeviceResource, size: usize) -> (r: Result<DeviceVectorInt, CumlError>)
        requires
            old(res).vectors_created < u64::MAX,
        ensures
            r is Ok <==> !old(res).faulted(BackendOp::CreateVectorInt),
            r matches Ok(v) ==> {
                &&& v@ == zero_ints(size as int)
                &&& *final(res) == (DeviceResource {
                    vectors_created: (old(res).vectors_created + 1) as u64,
                    ..*old(res)
                })
            },
            r matches Err(e) ==> {
                &&& e == (CumlError::Backend {
                    op: BackendOp::CreateVectorInt,
                    code: old(res).fault_code,
                })
                &&& *final(res) == *old(res)
            },
    {
        match res.fault_for(BackendOp::CreateVectorInt) {
            Some(code) => Err(CumlError::Backend { op: BackendOp::CreateVectorInt, code }),
            None => {
                let data = zero_int_vec(size);
                res.vectors_created = res.vectors_created + 1;
                Ok(DeviceVectorInt { data })
            },
        }
    }

    /// Copy `data.len()` integers from the host to a fresh device buffer;
    /// the buffer's logical length equals `data.len()` exactly.
    pub fn from_slice(res: &mut DeviceResource, data: &[i32]) -> (r: Result<
        DeviceVectorInt,
        CumlError,
    >)
        requires
            old(res).vectors_created < u64::MAX,
        ensures
            r is Ok <==> !old(res).faulted(BackendOp::UploadVectorInt),
            r matches Ok(v) ==> {
                &&& v@ == data@
                &&& *final(res) == (DeviceResource {
                    vectors_created: (old(res).vectors_created + 1) as u64,
                    ..*old(res)
                })
            },
            r matches Err(e) ==> {
                &&& e == (CumlError::Backend {
                    op: BackendOp::UploadVectorInt,
                    code: old(res).fault_code,
                })
                &&& *final(res) == *old(res)
            },
    {
        match res.fault_for(BackendOp::UploadVectorInt) {
            Some(code) => Err(CumlError::Backend { op: BackendOp::UploadVectorInt, code }),
            None => {
                let data = copy_ints(data);
                res.vectors_created = res.vectors_created + 1;
                Ok(DeviceVectorInt { data })
            },
        }
    }

    /// Query the buffer's element count from the backend. The count always
    /// matches the length at creation time: buffers are never resized.
    pub fn get_size(&self) -> (r: Result<usize, CumlError>)
        ensures
            r matches Ok(n) && n == self@.len(),
    {
        Ok(self.data.len())
    }

    /// The buffer's element count, for use inside the layer.
    pub(crate) fn len(&self) -> (n: usize)
        ensures
            n == self@.len(),
    {
        self.data.len()
    }

    /// Copy the buffer back to a host vector sized by its length; the
    /// returned vector reproduces the device contents exactly.
    pub fn to_host(&self, res: &DeviceResource) -> (r: Result<Vec<i32>, CumlError>)
        ensures
            r is Ok <==> !res.faulted(BackendOp::DownloadVectorInt),
            r matches Ok(v) ==> v@ == self@,
            r matches Err(e) ==> e == (CumlError::Backend {
                op: BackendOp::DownloadVectorInt,
                code: res.fault_code,
            }),
    {
        match res.fault_for(BackendOp::DownloadVectorInt) {
            Some(code) => Err(CumlError::Backend { op: BackendOp::DownloadVectorInt, code }),
            None => Ok(copy_ints(self.data.as_slice())),
        }
    }

    /// Replace the buffer's contents in place, keeping its length.
    pub(crate) fn overwrite(&mut self, data: Vec<i32>)
        requires
            data@.len() == old(self)@.len(),
        ensures
            final(self)@ == data@,
    {
        self.data = data;
    }

    /// Return the device region to the allocator, exactly once.
    pub fn release(self, res: &mut DeviceResource)
        requires
            old(res).vectors_released < u64::MAX,
        ensures
            *final(res) == (DeviceResource {
                vectors_released: (old(res).vectors_released + 1) as u64,
                ..*old(res)
            }),
    {
        res.vectors_released = res.vectors_released + 1;
    }
}

/// The round trip for float words: uploading any host sequence and
/// downloading it again reproduces the sequence exactly, including the
/// empty one, and the buffer used is released on every path.
pub fn upload_download_float(res: &mut DeviceResource, data: &[u32]) -> (r: Result<
    Vec<u32>,
    CumlError,
>)
    requires
        old(res).vectors_created < u64::MAX,
        old(res).vectors_released < u64::MAX,
    ensures
        r is Ok <==> !old(res).faulted(BackendOp::UploadVectorFloat) && !old(res).faulted(
            BackendOp::DownloadVectorFloat,
        ),
        r matches Ok(v) ==> v@ == data@,
        r matches Err(e) ==> (old(res).fault_op matches Some(op) && e == (CumlError::Backend {
            op,
            code: old(res).fault_code,
        })),
        buffers_balanced(*old(res), *final(res)),
{
    let dev = match DeviceVectorFloat::from_slice(res, data) {
        Ok(dev) => dev,
        Err(e) => {
            return Err(e);
        },
    };
    let host = match dev.to_host(res) {
        Ok(host) => host,
        Err(e) => {
            dev.release(res);
            return Err(e);
        },
    };
    dev.release(res);
    Ok(host)
}

/// The round trip for integers: uploading any host sequence and
/// downloading it again reproduces the sequence exactly, including the
/// empty one, and the buffer used is released on every path.
pub fn upload_download_int(res: &mut DeviceResource, data: &[i32]) -> (r: Result<
    Vec<i32>,
    CumlError,
>)
    requires
        old(res).vectors_created < u64::MAX,
        old(res).vectors_released < u64::MAX,
    ensures
        r is Ok <==> !old(res).faulted(BackendOp::UploadVectorInt) && !old(res).faulted(
            BackendOp::DownloadVectorInt,
        ),
        r matches Ok(v) ==> v@ == data@,
        r matches Err(e) ==> (old(res).fault_op matches Some(op) && e == (CumlError::Backend {
            op,
            code: old(res).fault_code,
        })),
        buffers_balanced(*old(res), *final(res)),
{
    let dev = match DeviceVectorInt::from_slice(res, data) {
        Ok(dev) => dev,
        Err(e) => {
            return Err(e);
        },
    };
    let host = match dev.to_host(res) {
        Ok(host) => host,
        Err(e) => {
            dev.release(res);
            return Err(e);
        },
    };
    dev.release(res);
    Ok(host)
}

} // verus!
