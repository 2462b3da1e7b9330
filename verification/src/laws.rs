//! The algebraic laws of the library, stated over the same spec functions
//! that the operations' contracts use and proved once and for all.

use vstd::arithmetic::div_mod::lemma_div_pos_is_pos;
use vstd::arithmetic::div_mod::lemma_fundamental_div_mod;
use vstd::arithmetic::div_mod::lemma_mod_bound;
use vstd::arithmetic::mul::lemma_mul_inequality;
use vstd::arithmetic::mul::lemma_mul_is_commutative;
use vstd::prelude::*;

use crate::layer::forward_result;
use crate::layer::Layer;
use crate::matrix::add_result;
use crate::matrix::all_zero;
use crate::matrix::dot_result;
use crate::matrix::dot_sum;
use crate::matrix::lemma_flat_index;
use crate::matrix::scale_result;
use crate::matrix::transpose_result;
use crate::matrix::Matrix;
use crate::shape::MatrixShape;

verus! {

/// Adding a matrix to itself equals scaling it by two: any sum of `a` with
/// `a` and any scaling of `a` by `2` agree in shape and elementwise.
pub proof fn lemma_add_self_is_scale_two(a: Matrix, s: Matrix, d: Matrix)
    requires
        a.wf(),
        add_result(a, a, s),
        scale_result(a, 2, d),
    ensures
        s.shape == d.shape,
        s@ == d@,
{
    assert(s@ =~= d@);
}

/// `m` is the `n` by `n` identity: ones on the diagonal, zeros elsewhere.
pub open spec fn is_identity(m: Matrix, n: int) -> bool {
    &&& m.wf()
    &&& m.shape.rows == n
    &&& m.shape.cols == n
    &&& forall|r: int, c: int|
        0 <= r < n && 0 <= c < n ==> m.val(r, c) == (if r == c {
            1i64
        } else {
            0i64
        })
}

/// A prefix of an inner product against an identity column is zero until the
/// diagonal term has been taken in, and the matching element afterwards.
proof fn lemma_dot_sum_identity(a: Matrix, iden: Matrix, i: int, j: int, n: int)
    requires
        a.wf(),
        is_identity(iden, a.shape.cols as int),
        0 <= i < a.shape.rows,
        0 <= j < a.shape.cols,
        0 <= n <= a.shape.cols,
    ensures
        dot_sum(a, iden, i, j, n) == if n <= j {
            0int
        } else {
            a.val(i, j) as int
        },
    decreases n,
{
    if n > 0 {
        lemma_dot_sum_identity(a, iden, i, j, n - 1);
        if n - 1 == j {
            assert(iden.val(n - 1, j) == 1i64);
        } else {
            assert(iden.val(n - 1, j) == 0i64);
            assert(a.val(i, n - 1) * 0 == 0);
        }
    }
}

/// Multiplying by an identity of matching size changes nothing: any product
/// of `a` with the `a.cols` by `a.cols` identity has `a`'s shape and agrees
/// with `a` on every cell.
pub proof fn lemma_dot_identity(a: Matrix, iden: Matrix, p: Matrix)
    requires
        a.wf(),
        is_identity(iden, a.shape.cols as int),
        dot_result(a, iden, p),
    ensures
        p.shape == a.shape,
        forall|r: int, c: int|
            0 <= r < a.shape.rows && 0 <= c < a.shape.cols ==> p.val(r, c) == a.val(r, c),
{
    assert forall|r: int, c: int|
        0 <= r < a.shape.rows && 0 <= c < a.shape.cols implies p.val(r, c) == a.val(r, c) by {
        lemma_dot_sum_identity(a, iden, r, c, a.shape.cols as int);
    }
}

/// Transpose is involutive: transposing a transpose of `a` gives back `a`'s
/// shape and exactly `a`'s elements.
pub proof fn lemma_transpose_involutive(a: Matrix, t: Matrix, u: Matrix)
    requires
        a.wf(),
        transpose_result(a, t),
        transpose_result(t, u),
    ensures
        u.shape == a.shape,
        u@ == a@,
{
    let rows = a.shape.rows as int;
    let cols = a.shape.cols as int;
    assert forall|ix: int| 0 <= ix < a@.len() implies u@[ix] == a@[ix] by {
        let r = ix / cols;
        let c = ix % cols;
        lemma_fundamental_div_mod(ix, cols);
        lemma_mod_bound(ix, cols);
        lemma_div_pos_is_pos(ix, cols);
        assert(r < rows) by {
            if r >= rows {
                lemma_mul_inequality(rows, r, cols);
                lemma_mul_is_commutative(r, cols);
                lemma_mul_is_commutative(rows, cols);
            }
        }
        assert(ix == cols * r + c);
        lemma_mul_is_commutative(r, cols);
        assert(u.val(r, c) == t.val(c, r));
        assert(t.val(c, r) == a.val(r, c));
        assert(u@[r * cols + c] == a@[r * cols + c]);
    }
    assert(u@ =~= a@);
}

/// A zero layer maps every `(1, input_size)` row to the all-zero
/// `(1, output_size)` row: with all-zero weights the inner products vanish,
/// and all-zero biases add nothing.
pub proof fn lemma_forward_zero_layer(l: Layer, x: Matrix, y: Matrix)
    requires
        l.wf(),
        all_zero(l.weights),
        all_zero(l.biases),
        x.wf(),
        x.shape == (MatrixShape { rows: 1, cols: l.shape.input_size }),
        forward_result(l, x, y),
    ensures
        y.shape == (MatrixShape { rows: 1, cols: l.shape.output_size }),
        all_zero(y),
{
    assert forall|j: int| 0 <= j < y@.len() implies y@[j] == 0 by {
        lemma_dot_sum_zero_weights(x, l.weights, 0, j, l.shape.input_size as int);
        assert(l.biases.val(0, j) == l.biases@[j]);
        assert(y.val(0, j) == y@[j]);
    }
}

/// Every prefix of an inner product against an all-zero weight column is
/// zero.
proof fn lemma_dot_sum_zero_weights(x: Matrix, w: Matrix, i: int, j: int, n: int)
    requires
        w.wf(),
        all_zero(w),
        0 <= j < w.shape.cols,
        0 <= n <= w.shape.rows,
    ensures
        dot_sum(x, w, i, j, n) == 0,
    decreases n,
{
    if n > 0 {
        lemma_dot_sum_zero_weights(x, w, i, j, n - 1);
        lemma_flat_index(n - 1, j, w.shape.rows as int, w.shape.cols as int);
        assert(w.val(n - 1, j) == 0);
        assert(x.val(i, n - 1) * 0 == 0);
    }
}

} // verus!
