//! Matrix multiplication over row-major flat buffers.

use vstd::arithmetic::div_mod::lemma_fundamental_div_mod_converse;
use vstd::prelude::*;

use crate::scalar::add64;
use crate::scalar::add_vals;
use crate::scalar::mul64;
use crate::scalar::mul_vals;

verus! {

/// The binary64 accumulation of the first `k` products pairing row `i` of
/// a `rows x n` matrix `a` with column `j` of an `n x m` matrix `b`:
/// starting from positive zero, the products `a[i*n + t] * b[t*m + j]` are
/// added for `t` in `0..k`, in increasing `t` order.
pub open spec fn row_col64(
    a: Seq<u64>,
    b: Seq<u64>,
    i: int,
    j: int,
    n: int,
    m: int,
    k: int,
) -> u64
    decreases k,
{
    if k <= 0 {
        0u64
    } else {
        add64(
            row_col64(a, b, i, j, n, m, k - 1),
            mul64(a[i * n + (k - 1)], b[(k - 1) * m + j]),
        )
    }
}

/// The product of `a` (read as `rows x n`) and `b` (read as `n x m`): a
/// `rows x m` row-major matrix whose entry at row `i`, column `j` is the
/// full accumulation [`row_col64`] over the inner dimension `n`.
pub open spec fn multiply64(a: Seq<u64>, b: Seq<u64>, rows: int, m: int, n: int) -> Seq<u64> {
    Seq::new((rows * m) as nat, |t: int| row_col64(a, b, t / m, t % m, n, m, n))
}

/// Pointwise reading of [`multiply64`]: the entry at row `i`, column `j`
/// of the product is the accumulation over the inner dimension.
pub proof fn lemma_multiply64_entry(
    a: Seq<u64>,
    b: Seq<u64>,
    rows: int,
    m: int,
    n: int,
    i: int,
    j: int,
)
    requires
        0 <= i < rows,
        0 <= j < m,
    ensures
        multiply64(a, b, rows, m, n)[i * m + j] == row_col64(a, b, i, j, n, m, n),
{
    lemma_fundamental_div_mod_converse(i * m + j, m, i, j);
    assert(0 <= i * m + j < rows * m) by (nonlinear_arith)
        requires
            0 <= i < rows,
            0 <= j < m,
    ;
}

/// Performs matrix multiplication: `a` is logically `rows x n`, `b` is
/// logically `n x m`, and the result is `rows x m`, each entry accumulated
/// over the inner dimension in increasing order starting from positive
/// zero.
pub fn multiply(a: Vec<u64>, b: Vec<u64>, rows: usize, m: usize, n: usize) -> (r: Vec<u64>)
    requires
        a.len() == rows * n,
        b.len() == n * m,
        rows * m <= usize::MAX,
    ensures
        r@.len() == rows * m,
        r@ == multiply64(a@, b@, rows as int, m as int, n as int),
{
    let mut r: Vec<u64> = Vec::new();
    let mut i: usize = 0;
    while i < rows
        invariant
            i <= rows,
            r@.len() == i * m,
            forall|t: int|
                0 <= t < r@.len() ==> r@[t] == row_col64(
                    a@,
                    b@,
                    t / m as int,
                    t % m as int,
                    n as int,
                    m as int,
                    n as int,
                ),
        decreases rows - i,
    {
        let mut j: usize = 0;
        while j < m
            invariant
                j <= m,
                r@.len() == i * m + j,
                forall|t: int|
                    0 <= t < r@.len() ==> r@[t] == row_col64(
                        a@,
                        b@,
                        t / m as int,
                        t % m as int,
                        n as int,
                        m as int,
                        n as int,
                    ),
            decreases m - j,
        {
            let mut acc: u64 = 0;
            let mut k: usize = 0;
            while k < n
                invariant
                    k <= n,
                    acc == row_col64(
                        a@,
                        b@,
                        i as int,
                        j as int,
                        n as int,
                        m as int,
                        k as int,
                    ),
                decreases n - k,
            {
                proof {
                    assert(i * (n as int) + k < rows * n) by (nonlinear_arith)
                        requires
                            0 <= i < rows,
                            0 <= k < n,
                    ;
                    assert(k * (m as int) + j < n * m) by (nonlinear_arith)
                        requires
                            0 <= k < n,
                            0 <= j < m,
                    ;
                }
                let x = a[i * n + k];
                let y = b[k * m + j];
                acc = add_vals(acc, mul_vals(x, y));
                k = k + 1;
            }
            proof {
                lemma_fundamental_div_mod_converse(
                    i * (m as int) + j,
                    m as int,
                    i as int,
                    j as int,
                );
            }
            r.push(acc);
            j = j + 1;
        }
        proof {
            assert((i + 1) * m == i * (m as int) + m) by (nonlinear_arith);
        }
        i = i + 1;
    }
    proof {
        assert(r@ =~= multiply64(a@, b@, rows as int, m as int, n as int));
    }
    r
}

} // verus!
