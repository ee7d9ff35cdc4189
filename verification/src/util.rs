//! Observation-index raveling: turning a multi-dimensional observation
//! index into a single row-major flat index.

use vstd::prelude::*;
use vstd::arithmetic::mul::{lemma_mul_is_commutative, lemma_mul_nonnegative};

verus! {

/// Product of the dimensions `shape[i..]`; 1 for an empty suffix.
pub open spec fn shape_product_from(shape: Seq<usize>, i: int) -> int
    decreases shape.len() - i,
{
    if i < 0 || i >= shape.len() {
        1
    } else {
        shape[i] * shape_product_from(shape, i + 1)
    }
}

/// Row-major flat index contributed by the dimensions `shape[i..]`.
/// Each dimension `shape[i]` is paired with the entry of `o` at the same
/// distance from the end, so only the trailing `shape.len()` entries of
/// `o` take part.
pub open spec fn flat_index_from(o: Seq<usize>, shape: Seq<usize>, i: int) -> int
    decreases shape.len() - i,
{
    if i < 0 || i >= shape.len() {
        0
    } else {
        o[o.len() - shape.len() + i] * shape_product_from(shape, i + 1) + flat_index_from(
            o,
            shape,
            i + 1,
        )
    }
}

/// Row-major flat index of the multi-index held in the trailing entries
/// of `o`, under the dimensions `shape`.
pub open spec fn flat_index(o: Seq<usize>, shape: Seq<usize>) -> int {
    flat_index_from(o, shape, 0)
}

proof fn lemma_shape_product_from_nonneg(shape: Seq<usize>, i: int)
    ensures
        shape_product_from(shape, i) >= 0,
    decreases shape.len() - i,
{
    if 0 <= i < shape.len() {
        lemma_shape_product_from_nonneg(shape, i + 1);
        lemma_mul_nonnegative(shape[i] as int, shape_product_from(shape, i + 1));
    }
}

proof fn lemma_flat_index_from_nonneg(o: Seq<usize>, shape: Seq<usize>, i: int)
    ensures
        flat_index_from(o, shape, i) >= 0,
    decreases shape.len() - i,
{
    if 0 <= i < shape.len() {
        lemma_flat_index_from_nonneg(o, shape, i + 1);
        lemma_shape_product_from_nonneg(shape, i + 1);
        lemma_mul_nonnegative(
            o[o.len() - shape.len() + i] as int,
            shape_product_from(shape, i + 1),
        );
    }
}

/// Later partial sums of the flat index are no larger than earlier ones:
/// every term is nonnegative.
proof fn lemma_flat_index_from_monotone(o: Seq<usize>, shape: Seq<usize>, i: int, j: int)
    requires
        0 <= i <= j,
    ensures
        flat_index_from(o, shape, j) <= flat_index_from(o, shape, i),
    decreases j - i,
{
    if i < j {
        lemma_flat_index_from_monotone(o, shape, i + 1, j);
        if i < shape.len() {
            lemma_shape_product_from_nonneg(shape, i + 1);
            lemma_mul_nonnegative(
                o[o.len() - shape.len() + i] as int,
                shape_product_from(shape, i + 1),
            );
        } else {
            lemma_flat_index_from_nonneg(o, shape, j);
        }
    }
}

/// Flattens the trailing entries of the multi-index `o` into a single
/// row-major index under the dimensions `shape`; entries of `o` before
/// the trailing `shape.len()` are ignored.  The caller keeps the
/// intermediate strides and the result inside `usize`.
pub fn ravel_multi_index(o: &[usize], shape: &[usize]) -> (idx: usize)
    requires
        o@.len() >= shape@.len(),
        flat_index(o@, shape@) <= usize::MAX,
        forall|j: int| 0 <= j <= shape@.len() ==> shape_product_from(shape@, j) <= usize::MAX,
    ensures
        idx == flat_index(o@, shape@),
{
    let m = shape.len();
    let olen = o.len();
    let mut idx: usize = 0;
    let mut stride: usize = 1;
    let mut j: usize = m;
    while j > 0
        invariant
            j <= m,
            m == shape@.len(),
            olen == o@.len(),
            olen >= m,
            idx == flat_index_from(o@, shape@, j as int),
            stride == shape_product_from(shape@, j as int),
            flat_index(o@, shape@) <= usize::MAX,
            forall|jj: int| 0 <= jj <= m ==> shape_product_from(shape@, jj) <= usize::MAX,
        decreases j,
    {
        j = j - 1;
        let oi = o[olen - m + j];
        proof {
            lemma_flat_index_from_nonneg(o@, shape@, j as int + 1);
            lemma_shape_product_from_nonneg(shape@, j as int + 1);
            lemma_mul_nonnegative(oi as int, shape_product_from(shape@, j as int + 1));
            lemma_flat_index_from_monotone(o@, shape@, 0, j as int);
        }
        idx = idx + oi * stride;
        proof {
            assert(shape_product_from(shape@, j as int) == shape@[j as int] * shape_product_from(
                shape@,
                j as int + 1,
            ));
            lemma_mul_is_commutative(stride as int, shape@[j as int] as int);
        }
        stride = stride * shape[j];
    }
    idx
}

} // verus!
