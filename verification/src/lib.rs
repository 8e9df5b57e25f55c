//! Marshalling layer for cross-filesystem copy and move operations.
//!
//! The actual transfer of data is performed by a native
//! distributed-filesystem client behind two entry points, one for copy and
//! one for move, each taking two filesystem handles and two null-terminated
//! path buffers and returning an integer status where zero means success.
//! This crate holds the part of that boundary that can be reasoned about:
//! converting path strings into null-terminated byte buffers (rejecting
//! embedded null bytes before any native call is attempted) and translating
//! the status code into a success value or the single generic failure that
//! the native boundary is able to report.

pub mod err;
pub mod path;
pub mod util;
