//! Reductions over a flat buffer: `sum` and `argmax`.

use vstd::prelude::*;

use crate::scalar::add64;
use crate::scalar::add_vals;
use crate::scalar::key_of;
use crate::scalar::total_key;

verus! {

/// The left-to-right binary64 sum of a sequence of bit patterns, starting
/// from positive zero (bit pattern `0`).
pub open spec fn sum64(s: Seq<u64>) -> u64
    decreases s.len(),
{
    if s.len() == 0 {
        0u64
    } else {
        add64(sum64(s.drop_last()), s.last())
    }
}

/// Sums all elements of the matrix, in left-to-right accumulation order;
/// the empty buffer sums to positive zero.
pub fn sum(a: Vec<u64>) -> (r: u64)
    ensures
        r == sum64(a@),
{
    let mut acc: u64 = 0;
    let mut i: usize = 0;
    while i < a.len()
        invariant
            i <= a@.len(),
            acc == sum64(a@.take(i as int)),
        decreases a@.len() - i,
    {
        proof {
            assert(a@.take(i + 1int).drop_last() =~= a@.take(i as int));
            assert(a@.take(i + 1int).last() == a@[i as int]);
        }
        acc = add_vals(acc, a[i]);
        i = i + 1;
    }
    proof {
        assert(a@.take(a@.len() as int) =~= a@);
    }
    acc
}

/// Returns the index of the largest element under the IEEE-754 total order
/// (see [`total_key`]); among equal elements the first (lowest) index wins.
/// Returns `None` exactly when the buffer is empty.
pub fn argmax(a: Vec<u64>) -> (r: Option<usize>)
    ensures
        r is None <==> a@.len() == 0,
        r matches Some(best) ==> {
            &&& 0 <= best < a@.len()
            &&& forall|j: int| 0 <= j < a@.len() ==> total_key(a@[j]) <= total_key(a@[best as int])
            &&& forall|j: int| 0 <= j < best ==> total_key(a@[j]) < total_key(a@[best as int])
        },
{
    if a.len() == 0 {
        return None;
    }
    let mut best: usize = 0;
    let mut best_key: u64 = key_of(a[0]);
    let mut i: usize = 1;
    while i < a.len()
        invariant
            1 <= i <= a@.len(),
            best < i,
            best_key == total_key(a@[best as int]),
            forall|j: int| 0 <= j < i ==> total_key(a@[j]) <= best_key,
            forall|j: int| 0 <= j < best ==> total_key(a@[j]) < best_key,
        decreases a@.len() - i,
    {
        let k = key_of(a[i]);
        if k > best_key {
            best = i;
            best_key = k;
        }
        i = i + 1;
    }
    Some(best)
}

} // verus!
