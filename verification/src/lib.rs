//! A file-backed, growable byte buffer built on memory-mapped I/O.
//!
//! The library verifies the buffer-management protocol: a read-only mapped
//! view, a read/write mapped view that can be resized, and a sequential
//! writer that doubles the view's capacity whenever a write would overflow
//! it and truncates the view back to the exact number of bytes written when
//! the writer is finished.
//!
//! The operating-system pieces (opening and creating files, acquiring and
//! flushing the OS mapping) cannot be verified and live outside the library;
//! they hand the library plain byte values and follow its verified growth
//! decisions.
use vstd::prelude::*;

pub mod growth;
pub mod view;
pub mod writer;

verus! {

/// Initial capacity, in bytes, of a read/write view allocated without an
/// explicit size.
pub const DEFAULT_SIZE: usize = 8192;

} // verus!
