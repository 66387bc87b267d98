//! Procedural terrain mesh and texture generation.
//!
//! The library produces the exact integer data that a renderer consumes:
//! quad index buffers and vertex lattices for regular grid meshes, byte-size
//! guarded geometry descriptions, and RGBA color buffers evaluated through a
//! keyed color gradient. Real-valued scalars (heights, gradient positions,
//! blend fractions) are carried as fixed-point integers in units of
//! [`SCALAR_ONE`]; the floating-point noise field that feeds them is an
//! external collaborator.

use vstd::prelude::*;

pub mod chunkgen;
pub mod gradient;
pub mod texturegen;
pub mod unity;

verus! {

/// One whole unit of the fixed-point scalar scale: scalar values are held in
/// millionths, so `500_000` stands for one half.
pub const SCALAR_ONE: i64 = 1_000_000;

/// Why a generation request was refused.
#[derive(Clone, Copy, Debug, PartialEq, Eq, Structural)]
pub enum MeshError {
    /// A caller-supplied buffer or parameter does not match what the
    /// operation needs (for example an output buffer of the wrong length).
    InvalidArgument,
    /// The requested dimensions would need a buffer whose byte size does not
    /// fit a 32-bit signed length.
    SizeOverflow,
    /// An evaluation faulted mid-fill; the output buffer must be discarded.
    ComputationPanic,
}

} // verus!
