//! Element-wise kernels: matrix-matrix and matrix-scalar `+`, `-`, `*`.
//!
//! Pairing is purely positional over the flat buffers; no shape parameter
//! is taken or validated. When the two operands of a matrix-matrix kernel
//! differ in length, the result stops at the shorter one.

use vstd::math::min;
use vstd::prelude::*;

use crate::scalar::add64;
use crate::scalar::add_vals;
use crate::scalar::mul64;
use crate::scalar::mul_vals;
use crate::scalar::sub64;
use crate::scalar::sub_vals;

verus! {

/// Adds two matrices together element-wise.
pub fn add_matrix(a: Vec<u64>, b: Vec<u64>) -> (r: Vec<u64>)
    ensures
        r@.len() == min(a@.len() as int, b@.len() as int),
        forall|i: int| 0 <= i < r@.len() ==> r@[i] == add64(a@[i], b@[i]),
{
    let len: usize = if a.len() <= b.len() {
        a.len()
    } else {
        b.len()
    };
    let mut r: Vec<u64> = Vec::new();
    let mut i: usize = 0;
    while i < len
        invariant
            i <= len,
            r@.len() == i,
            forall|j: int| 0 <= j < i ==> r@[j] == add64(a@[j], b@[j]),
        decreases len - i,
    {
        r.push(add_vals(a[i], b[i]));
        i = i + 1;
    }
    r
}

/// Subtracts one matrix from another element-wise.
pub fn subtract_matrix(a: Vec<u64>, b: Vec<u64>) -> (r: Vec<u64>)
    ensures
        r@.len() == min(a@.len() as int, b@.len() as int),
        forall|i: int| 0 <= i < r@.len() ==> r@[i] == sub64(a@[i], b@[i]),
{
    let len: usize = if a.len() <= b.len() {
        a.len()
    } else {
        b.len()
    };
    let mut r: Vec<u64> = Vec::new();
    let mut i: usize = 0;
    while i < len
        invariant
            i <= len,
            r@.len() == i,
            forall|j: int| 0 <= j < i ==> r@[j] == sub64(a@[j], b@[j]),
        decreases len - i,
    {
        r.push(sub_vals(a[i], b[i]));
        i = i + 1;
    }
    r
}

/// Multiplies two matrices element-wise (the Hadamard product, not an
/// inner product, despite the traditional name).
pub fn dot_matrix(a: Vec<u64>, b: Vec<u64>) -> (r: Vec<u64>)
    ensures
        r@.len() == min(a@.len() as int, b@.len() as int),
        forall|i: int| 0 <= i < r@.len() ==> r@[i] == mul64(a@[i], b@[i]),
{
    let len: usize = if a.len() <= b.len() {
        a.len()
    } else {
        b.len()
    };
    let mut r: Vec<u64> = Vec::new();
    let mut i: usize = 0;
    while i < len
        invariant
            i <= len,
            r@.len() == i,
            forall|j: int| 0 <= j < i ==> r@[j] == mul64(a@[j], b@[j]),
        decreases len - i,
    {
        r.push(mul_vals(a[i], b[i]));
        i = i + 1;
    }
    r
}

/// Adds a scalar value to every element of the matrix.
pub fn add_scalar(a: Vec<u64>, b: u64) -> (r: Vec<u64>)
    ensures
        r@.len() == a@.len(),
        forall|i: int| 0 <= i < r@.len() ==> r@[i] == add64(a@[i], b),
{
    let mut r: Vec<u64> = Vec::new();
    let mut i: usize = 0;
    while i < a.len()
        invariant
            i <= a@.len(),
            r@.len() == i,
            forall|j: int| 0 <= j < i ==> r@[j] == add64(a@[j], b),
        decreases a@.len() - i,
    {
        r.push(add_vals(a[i], b));
        i = i + 1;
    }
    r
}

/// Subtracts a scalar value from every element of the matrix.
pub fn subtract_scalar(a: Vec<u64>, b: u64) -> (r: Vec<u64>)
    ensures
        r@.len() == a@.len(),
        forall|i: int| 0 <= i < r@.len() ==> r@[i] == sub64(a@[i], b),
{
    let mut r: Vec<u64> = Vec::new();
    let mut i: usize = 0;
    while i < a.len()
        invariant
            i <= a@.len(),
            r@.len() == i,
            forall|j: int| 0 <= j < i ==> r@[j] == sub64(a@[j], b),
        decreases a@.len() - i,
    {
        r.push(sub_vals(a[i], b));
        i = i + 1;
    }
    r
}

/// Multiplies every element of the matrix by a scalar value.
pub fn dot_scalar(a: Vec<u64>, b: u64) -> (r: Vec<u64>)
    ensures
        r@.len() == a@.len(),
        forall|i: int| 0 <= i < r@.len() ==> r@[i] == mul64(a@[i], b),
{
    let mut r: Vec<u64> = Vec::new();
    let mut i: usize = 0;
    while i < a.len()
        invariant
            i <= a@.len(),
            r@.len() == i,
            forall|j: int| 0 <= j < i ==> r@[j] == mul64(a@[j], b),
        decreases a@.len() - i,
    {
        r.push(mul_vals(a[i], b));
        i = i + 1;
    }
    r
}

} // verus!
