//! The scalar domain: IEEE-754 binary64 values carried as bit patterns.
//!
//! The three arithmetic operations the kernels need (`+`, `-`, `*`) are
//! deterministic functions of the operands' bit patterns alone, so each is
//! given an uninterpreted name (`add64`, `sub64`, `mul64`) and an executable
//! wrapper whose contract ties its result to that name. The total order used
//! by `argmax` needs no trust at all: on bit patterns it is plain integer
//! arithmetic, implemented and verified here as `key_of`.

use rustc_apfloat::Float;
use vstd::prelude::*;

verus! {

/// The bit pattern of the IEEE-754 binary64 sum of the values whose bit
/// patterns are `a` and `b` (round to nearest, ties to even).
pub uninterp spec fn add64(a: u64, b: u64) -> u64;

/// The bit pattern of the IEEE-754 binary64 difference of the values whose
/// bit patterns are `a` and `b` (round to nearest, ties to even).
pub uninterp spec fn sub64(a: u64, b: u64) -> u64;

/// The bit pattern of the IEEE-754 binary64 product of the values whose bit
/// patterns are `a` and `b` (round to nearest, ties to even).
pub uninterp spec fn mul64(a: u64, b: u64) -> u64;

/// Relies on rustc_apfloat's binary64 addition (`ieee::Double`): the sum's
/// bit pattern is a function of the operands' bit patterns alone.
#[verifier::external_body]
pub(crate) fn add_vals(a: u64, b: u64) -> (r: u64)
    ensures
        r == add64(a, b),
{
    let x = rustc_apfloat::ieee::Double::from_bits(a as u128);
    let y = rustc_apfloat::ieee::Double::from_bits(b as u128);
    (x + y).value.to_bits() as u64
}

/// Relies on rustc_apfloat's binary64 subtraction (`ieee::Double`): the
/// difference's bit pattern is a function of the operands' bit patterns
/// alone.
#[verifier::external_body]
pub(crate) fn sub_vals(a: u64, b: u64) -> (r: u64)
    ensures
        r == sub64(a, b),
{
    let x = rustc_apfloat::ieee::Double::from_bits(a as u128);
    let y = rustc_apfloat::ieee::Double::from_bits(b as u128);
    (x - y).value.to_bits() as u64
}

/// Relies on rustc_apfloat's binary64 multiplication (`ieee::Double`): the
/// product's bit pattern is a function of the operands' bit patterns alone.
#[verifier::external_body]
pub(crate) fn mul_vals(a: u64, b: u64) -> (r: u64)
    ensures
        r == mul64(a, b),
{
    let x = rustc_apfloat::ieee::Double::from_bits(a as u128);
    let y = rustc_apfloat::ieee::Double::from_bits(b as u128);
    (x * y).value.to_bits() as u64
}

/// Maps the bit pattern of a binary64 value to an unsigned key whose `u64`
/// order is the IEEE-754 total order on the values: negative values (sign
/// bit set) are flipped entirely, so that more-negative patterns get
/// smaller keys, and non-negative values keep their order above all of
/// them.
pub open spec fn total_key(x: u64) -> u64 {
    if x < 0x8000_0000_0000_0000u64 {
        (x + 0x8000_0000_0000_0000u64) as u64
    } else {
        !x
    }
}

/// The executable form of [`total_key`].
pub(crate) fn key_of(x: u64) -> (r: u64)
    ensures
        r == total_key(x),
{
    if x < 0x8000_0000_0000_0000u64 {
        x + 0x8000_0000_0000_0000u64
    } else {
        !x
    }
}

} // verus!
