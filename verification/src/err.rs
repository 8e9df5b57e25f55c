use vstd::prelude::*;

verus! {

/// What can go wrong at this layer. The native boundary communicates only a
/// pass/fail signal, so a failed native call surfaces as the single generic
/// kind `Unknown`; a path that cannot be marshalled into a null-terminated
/// buffer is caught locally, before any native call, as `InvalidPath`.
#[derive(Clone, Copy, Debug, PartialEq, Eq, Structural)]
pub enum HdfsErr {
    /// A path held an embedded null byte, so no null-terminated buffer can
    /// represent it; detected before the native boundary is reached.
    InvalidPath,
    /// The native call returned a non-zero status; no finer-grained cause
    /// is available from the native boundary.
    Unknown,
}

} // verus!
