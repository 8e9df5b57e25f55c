use vstd::prelude::*;
use vstd::string::StringSliceAdditionalSpecFns;

use crate::err::HdfsErr;

verus! {

/// Holds exactly when a path's bytes can cross the native boundary: a
/// null-terminated buffer cannot carry an embedded null byte.
pub open spec fn path_ok(path: Seq<u8>) -> bool {
    !path.contains(0u8)
}

/// The buffer the native call receives for a path: the path's UTF-8 bytes
/// followed by a single terminating null byte.
pub open spec fn marshalled(path: Seq<u8>) -> Seq<u8> {
    path.push(0u8)
}

/// Holds of a buffer that is valid to hand to a native call: non-empty,
/// null-terminated, and free of interior null bytes.
pub open spec fn c_buffer(buf: Seq<u8>) -> bool {
    &&& buf.len() >= 1
    &&& buf.last() == 0u8
    &&& path_ok(buf.drop_last())
}

/// A path marshalled for the native boundary. It owns the null-terminated
/// byte buffer, which stays valid for as long as this value lives; a caller
/// making a native call borrows the buffer for exactly that call's scope.
#[derive(Debug)]
pub struct CPath {
    bytes: Vec<u8>,
}

impl View for CPath {
    type V = Seq<u8>;

    closed spec fn view(&self) -> Seq<u8> {
        self.bytes@
    }
}

impl CPath {
    /// Well-formedness: the owned buffer is a valid C-string buffer.
    pub open spec fn wf(&self) -> bool {
        c_buffer(self@)
    }

    /// Converts a path string into its null-terminated buffer. Fails, with
    /// no native call attempted, exactly when the path holds an embedded
    /// null byte; it never silently truncates.
    pub fn new(path: &str) -> (r: Result<CPath, HdfsErr>)
        ensures
            match r {
                Ok(p) => {
                    &&& path_ok(path.spec_bytes())
                    &&& p.wf()
                    &&& p@ == marshalled(path.spec_bytes())
                },
                Err(e) => {
                    &&& !path_ok(path.spec_bytes())
                    &&& e == HdfsErr::InvalidPath
                },
            },
    {
        let bytes: &[u8] = path.as_bytes();
        let mut buf: Vec<u8> = Vec::new();
        let mut i: usize = 0;
        while i < bytes.len()
            invariant
                bytes@ == path.spec_bytes(),
                i <= bytes@.len(),
                buf@ == bytes@.take(i as int),
                forall|j: int| 0 <= j < i ==> bytes@[j] != 0u8,
            decreases bytes@.len() - i,
        {
            let b = bytes[i];
            if b == 0u8 {
                return Err(HdfsErr::InvalidPath);
            }
            buf.push(b);
            i = i + 1;
        }
        buf.push(0u8);
        Ok(CPath { bytes: buf })
    }

    /// The marshalled buffer, terminating null byte included. It is valid
    /// for the scope of a single native call, which must not outlive this
    /// value.
    pub fn as_bytes_with_nul(&self) -> (r: &Vec<u8>)
        ensures
            r@ == self@,
    {
        &self.bytes
    }
}

} // verus!
