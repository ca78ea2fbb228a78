//! Transpose of a row-major flat buffer, and its involution law.

use vstd::arithmetic::div_mod::lemma_fundamental_div_mod;
use vstd::arithmetic::div_mod::lemma_fundamental_div_mod_converse;
use vstd::arithmetic::div_mod::lemma_mod_bound;
use vstd::arithmetic::div_mod::lemma_multiply_divide_lt;
use vstd::arithmetic::mul::lemma_mul_is_commutative;
use vstd::prelude::*;

verus! {

/// The transpose of `s` read as a `rows x columns` row-major matrix: a
/// `columns x rows` row-major matrix, so the element at output index
/// `j * rows + i` is the input element at `i * columns + j`.
pub open spec fn transpose64(s: Seq<u64>, rows: int, columns: int) -> Seq<u64> {
    Seq::new((rows * columns) as nat, |t: int| s[(t % rows) * columns + t / rows])
}

/// Calculates the transpose of the given `rows x columns` matrix.
pub fn transpose(a: Vec<u64>, rows: usize, columns: usize) -> (r: Vec<u64>)
    requires
        a@.len() == rows * columns,
    ensures
        r@.len() == a@.len(),
        r@ == transpose64(a@, rows as int, columns as int),
{
    let len: usize = a.len();
    let mut r: Vec<u64> = Vec::new();
    let mut t: usize = 0;
    while t < len
        invariant
            t <= len,
            r@.len() == t,
            forall|u: int|
                0 <= u < t ==> r@[u] == a@[(u % rows as int) * columns + u / rows as int],
        decreases len - t,
    {
        proof {
            assert(rows > 0 && columns > 0) by {
                assert(rows == 0 || columns == 0 ==> rows * columns == 0) by (nonlinear_arith);
            }
            let ti = t as int;
            let ri = rows as int;
            let ci = columns as int;
            lemma_mod_bound(ti, ri);
            lemma_mul_is_commutative(ri, ci);
            lemma_multiply_divide_lt(ti, ri, ci);
            assert((ti % ri) * ci + ti / ri < ri * ci) by (nonlinear_arith)
                requires
                    0 <= ti % ri < ri,
                    0 <= ti / ri < ci,
            ;
        }
        let src: usize = (t % rows) * columns + t / rows;
        r.push(a[src]);
        t = t + 1;
    }
    proof {
        assert(r@ =~= transpose64(a@, rows as int, columns as int));
    }
    r
}

/// Pointwise reading of [`transpose64`]: the element at logical row `i`,
/// column `j` of the input lands at output row `j`, column `i`.
pub proof fn lemma_transpose64_entry(s: Seq<u64>, rows: int, columns: int, i: int, j: int)
    requires
        0 <= i < rows,
        0 <= j < columns,
        s.len() == rows * columns,
    ensures
        transpose64(s, rows, columns)[j * rows + i] == s[i * columns + j],
{
    lemma_fundamental_div_mod_converse(j * rows + i, rows, j, i);
    assert(0 <= j * rows + i < rows * columns) by (nonlinear_arith)
        requires
            0 <= i < rows,
            0 <= j < columns,
    ;
}

/// The involution law: transposing a `rows x columns` matrix and then
/// transposing the result (as a `columns x rows` matrix) gives back the
/// original buffer.
pub proof fn lemma_transpose_involution(s: Seq<u64>, rows: int, columns: int)
    requires
        0 <= rows,
        0 <= columns,
        s.len() == rows * columns,
    ensures
        transpose64(transpose64(s, rows, columns), columns, rows) == s,
{
    let t1 = transpose64(s, rows, columns);
    let t2 = transpose64(t1, columns, rows);
    lemma_mul_is_commutative(rows, columns);
    assert forall|t: int| 0 <= t < s.len() implies t2[t] == s[t] by {
        assert(rows > 0 && columns > 0) by {
            assert(rows == 0 || columns == 0 ==> rows * columns == 0) by (nonlinear_arith);
        }
        let q = t / columns;
        let p = t % columns;
        lemma_mod_bound(t, columns);
        lemma_multiply_divide_lt(t, columns, rows);
        let u = p * rows + q;
        assert(0 <= u < rows * columns) by (nonlinear_arith)
            requires
                0 <= q < rows,
                0 <= p < columns,
                u == p * rows + q,
        ;
        lemma_fundamental_div_mod_converse(u, rows, p, q);
        assert(t2[t] == t1[u]);
        assert(t1[u] == s[q * columns + p]);
        lemma_fundamental_div_mod(t, columns);
        lemma_mul_is_commutative(columns, q);
    }
    assert(t2 =~= s);
}

} // verus!
