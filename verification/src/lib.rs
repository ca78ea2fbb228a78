//! Dense matrix and vector arithmetic over flat, row-major buffers.
//!
//! Every matrix is a flat buffer of IEEE-754 binary64 values, each value
//! carried as its 64-bit pattern (`u64`), with the element at logical row
//! `i`, column `j` of an `R x C` matrix stored at flat index `i * C + j`.
//! Working on bit patterns keeps every kernel a total function on plain
//! integers: the structural behaviour of each kernel (lengths, index
//! arithmetic, accumulation order, tie-breaking) is specified and verified
//! here, while the binary64 arithmetic itself sits behind a small set of
//! trusted wrappers in [`scalar`].

#![verifier::loop_isolation(false)]

use vstd::prelude::*;

mod elementwise;
mod multiply;
mod reduce;
mod scalar;
mod transpose;

pub use elementwise::add_matrix;
pub use elementwise::add_scalar;
pub use elementwise::dot_matrix;
pub use elementwise::dot_scalar;
pub use elementwise::subtract_matrix;
pub use elementwise::subtract_scalar;
pub use multiply::lemma_multiply64_entry;
pub use multiply::multiply;
pub use multiply::multiply64;
pub use multiply::row_col64;
pub use reduce::argmax;
pub use reduce::sum;
pub use reduce::sum64;
pub use scalar::add64;
pub use scalar::mul64;
pub use scalar::sub64;
pub use scalar::total_key;
pub use transpose::lemma_transpose64_entry;
pub use transpose::lemma_transpose_involution;
pub use transpose::transpose;
pub use transpose::transpose64;
