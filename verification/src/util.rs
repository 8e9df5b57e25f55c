use vstd::prelude::*;
use vstd::string::StringSliceAdditionalSpecFns;

use crate::err::HdfsErr;
use crate::path::{c_buffer, marshalled, path_ok, CPath};

verus! {

/// The native entry point a marshalled transfer is destined for; the native
/// boundary offers one function for copy and one for move, with the same
/// shape: two filesystem handles, two null-terminated path buffers, an
/// integer status in return.
#[derive(Clone, Copy, Debug, PartialEq, Eq, Structural)]
pub enum NativeFn {
    /// The native copy primitive: duplicates data at the destination and
    /// leaves the source in place.
    HdfsCopy,
    /// The native move primitive: relocates data so that it exists at the
    /// destination and no longer at the source.
    HdfsMove,
}

/// One fully marshalled native transfer: which entry point to invoke and
/// the two null-terminated path buffers to pass it. The filesystem handles
/// stay opaque to this layer; the caller supplies them at invocation time
/// and owns their lifecycle entirely.
#[derive(Debug)]
pub struct TransferCall {
    /// The native entry point to invoke.
    pub op: NativeFn,
    /// The marshalled source path.
    pub src: CPath,
    /// The marshalled destination path.
    pub dst: CPath,
}

impl TransferCall {
    /// Both buffers are valid C-string buffers for the native call.
    pub open spec fn wf(&self) -> bool {
        self.src.wf() && self.dst.wf()
    }
}

/// What a native status code surfaces as: zero is the one success, and
/// every non-zero status is the single generic failure, since the native
/// boundary reports nothing finer than pass/fail.
pub open spec fn status_result(status: i32) -> Result<bool, HdfsErr> {
    if status == 0 {
        Ok(true)
    } else {
        Err(HdfsErr::Unknown)
    }
}

/// Marshals cross-filesystem copy and move requests for the native
/// boundary and interprets the status codes it returns. The native calls
/// themselves, and the opaque filesystem handles they take, live outside
/// this crate.
pub struct HdfsUtil;

impl HdfsUtil {
    /// Marshals a copy of `src` on the source filesystem to `dst` on the
    /// destination filesystem. Succeeds exactly when both paths are free of
    /// embedded null bytes, handing back the call destined for the native
    /// copy primitive; no native call is attempted during marshalling.
    pub fn copy(src: &str, dst: &str) -> (r: Result<TransferCall, HdfsErr>)
        ensures
            match r {
                Ok(c) => {
                    &&& c.wf()
                    &&& c.op == NativeFn::HdfsCopy
                    &&& path_ok(src.spec_bytes()) && path_ok(dst.spec_bytes())
                    &&& c.src@ == marshalled(src.spec_bytes())
                    &&& c.dst@ == marshalled(dst.spec_bytes())
                },
                Err(e) => {
                    &&& e == HdfsErr::InvalidPath
                    &&& !(path_ok(src.spec_bytes()) && path_ok(dst.spec_bytes()))
                },
            },
    {
        Self::request(NativeFn::HdfsCopy, src, dst)
    }

    /// Marshals a move of `src` on the source filesystem to `dst` on the
    /// destination filesystem. Succeeds exactly when both paths are free of
    /// embedded null bytes, handing back the call destined for the native
    /// move primitive; no native call is attempted during marshalling.
    pub fn mv(src: &str, dst: &str) -> (r: Result<TransferCall, HdfsErr>)
        ensures
            match r {
                Ok(c) => {
                    &&& c.wf()
                    &&& c.op == NativeFn::HdfsMove
                    &&& path_ok(src.spec_bytes()) && path_ok(dst.spec_bytes())
                    &&& c.src@ == marshalled(src.spec_bytes())
                    &&& c.dst@ == marshalled(dst.spec_bytes())
                },
                Err(e) => {
                    &&& e == HdfsErr::InvalidPath
                    &&& !(path_ok(src.spec_bytes()) && path_ok(dst.spec_bytes()))
                },
            },
    {
        Self::request(NativeFn::HdfsMove, src, dst)
    }

    /// Shared marshalling of the two operations: converts the source path
    /// first, then the destination, stopping at the first path that cannot
    /// be represented.
    fn request(op: NativeFn, src: &str, dst: &str) -> (r: Result<TransferCall, HdfsErr>)
        ensures
            match r {
                Ok(c) => {
                    &&& c.wf()
                    &&& c.op == op
                    &&& path_ok(src.spec_bytes()) && path_ok(dst.spec_bytes())
                    &&& c.src@ == marshalled(src.spec_bytes())
                    &&& c.dst@ == marshalled(dst.spec_bytes())
                },
                Err(e) => {
                    &&& e == HdfsErr::InvalidPath
                    &&& !(path_ok(src.spec_bytes()) && path_ok(dst.spec_bytes()))
                },
            },
    {
        let cstr_src = match CPath::new(src) {
            Ok(p) => p,
            Err(e) => {
                return Err(e);
            },
        };
        let cstr_dst = match CPath::new(dst) {
            Ok(p) => p,
            Err(e) => {
                return Err(e);
            },
        };
        Ok(TransferCall { op: op, src: cstr_src, dst: cstr_dst })
    }

    /// Translates the status code a native transfer returned: zero is
    /// success, and any non-zero code surfaces as the generic failure kind,
    /// never as a success value.
    pub fn interpret_status(status: i32) -> (r: Result<bool, HdfsErr>)
        ensures
            r == status_result(status),
    {
        if status == 0 {
            Ok(true)
        } else {
            Err(HdfsErr::Unknown)
        }
    }
}

/// Law: marshalling is faithful. For any path free of embedded null bytes,
/// the marshalled buffer is a valid C-string buffer, one byte longer than
/// the path, and dropping its terminator gives back exactly the path's
/// bytes: the native call sees the path unaltered.
pub proof fn lemma_marshalling_faithful(path: Seq<u8>)
    requires
        path_ok(path),
    ensures
        c_buffer(marshalled(path)),
        marshalled(path).drop_last() == path,
        marshalled(path).len() == path.len() + 1,
{
    assert(marshalled(path).drop_last() =~= path);
}

/// Law: status translation is faithful. Zero is the one status that
/// surfaces as success; every non-zero status surfaces as the generic
/// failure kind, and no status ever surfaces as a false success indicator.
pub proof fn lemma_status_faithful(status: i32)
    ensures
        status == 0 <==> status_result(status) == Result::<bool, HdfsErr>::Ok(true),
        status != 0 <==> status_result(status) == Result::<bool, HdfsErr>::Err(HdfsErr::Unknown),
        status_result(status) != Result::<bool, HdfsErr>::Ok(false),
{
}

} // verus!
