use vstd::prelude::*;

verus! {

/// Product of the first `n` entries of `shape`; one for `n <= 0`.
///
/// This is the stride of axis `n` in the dense layout whose first axis varies
/// fastest, and for `n == shape.len()` the number of elements of the shape.
pub open spec fn prefix_product(shape: Seq<usize>, n: int) -> nat
    decreases n,
{
    if n <= 0 {
        1
    } else {
        prefix_product(shape, n - 1) * (shape[n - 1] as nat)
    }
}

/// Number of elements of a tensor of the given shape: the product of all its
/// entries. The empty shape, that of a scalar, has one element.
pub open spec fn shape_product(shape: Seq<usize>) -> nat {
    prefix_product(shape, shape.len() as int)
}

/// Every dense stride of `shape` is small enough to be held in a `usize`.
pub open spec fn strides_fit(shape: Seq<usize>) -> bool {
    forall|i: int| 0 <= i < shape.len() ==> #[trigger] prefix_product(shape, i) <= usize::MAX
}

/// Every dense stride of `shape` and its number of elements are small enough
/// to be held in a `usize`.
pub open spec fn layout_fits(shape: Seq<usize>) -> bool {
    &&& strides_fit(shape)
    &&& shape_product(shape) <= usize::MAX
}

/// `strides` is the dense layout of `shape` whose first axis varies fastest:
/// one stride per axis, each the product of the entries before its axis.
pub open spec fn is_dense_layout(shape: Seq<usize>, strides: Seq<usize>) -> bool {
    &&& strides.len() == shape.len()
    &&& forall|i: int| 0 <= i < shape.len() ==> #[trigger] strides[i] == prefix_product(shape, i)
}

/// No entry of `shape` is zero.
pub open spec fn all_positive(shape: Seq<usize>) -> bool {
    forall|i: int| 0 <= i < shape.len() ==> #[trigger] shape[i] != 0
}

/// In a dense layout the stride of the first axis is one, and the stride of
/// every later axis is the stride of the axis before it times the length of
/// that axis.
pub proof fn lemma_dense_layout_recurrence(shape: Seq<usize>, strides: Seq<usize>)
    requires
        is_dense_layout(shape, strides),
    ensures
        shape.len() > 0 ==> strides[0] == 1,
        forall|i: int|
            1 <= i < shape.len() ==> #[trigger] strides[i] == strides[i - 1] * shape[i - 1],
{
    assert forall|i: int| 1 <= i < shape.len() implies #[trigger] strides[i] == strides[i - 1]
        * shape[i - 1] by {
        assert(strides[i] == prefix_product(shape, i));
        assert(strides[i - 1] == prefix_product(shape, i - 1));
    }
    if shape.len() > 0 {
        assert(strides[0] == prefix_product(shape, 0));
    }
}

/// Strides that start at one and grow by the recurrence are the dense layout:
/// the recurrence leaves no other choice.
pub proof fn lemma_recurrence_is_dense_layout(shape: Seq<usize>, strides: Seq<usize>)
    requires
        strides.len() == shape.len(),
        shape.len() > 0 ==> strides[0] == 1,
        forall|i: int|
            1 <= i < shape.len() ==> #[trigger] strides[i] == strides[i - 1] * shape[i - 1],
    ensures
        is_dense_layout(shape, strides),
{
    assert forall|i: int| 0 <= i < shape.len() implies #[trigger] strides[i] == prefix_product(
        shape,
        i,
    ) by {
        lemma_recurrence_reaches(shape, strides, i);
    }
}

proof fn lemma_recurrence_reaches(shape: Seq<usize>, strides: Seq<usize>, axis: int)
    requires
        strides.len() == shape.len(),
        shape.len() > 0 ==> strides[0] == 1,
        forall|i: int|
            1 <= i < shape.len() ==> #[trigger] strides[i] == strides[i - 1] * shape[i - 1],
        0 <= axis < shape.len(),
    ensures
        strides[axis] == prefix_product(shape, axis),
    decreases axis,
{
    if axis > 0 {
        lemma_recurrence_reaches(shape, strides, axis - 1);
        assert(strides[axis] == strides[axis - 1] * shape[axis - 1]);
    }
}

/// The empty shape, that of a scalar, has exactly one element.
pub proof fn lemma_empty_shape_has_one_element(shape: Seq<usize>)
    requires
        shape.len() == 0,
    ensures
        shape_product(shape) == 1,
{
}

/// A shape with an axis of length zero has no elements, and every dense
/// stride behind that axis is zero.
pub proof fn lemma_zero_axis(shape: Seq<usize>, axis: int)
    requires
        0 <= axis < shape.len(),
        shape[axis] == 0,
    ensures
        shape_product(shape) == 0,
        forall|i: int| axis < i <= shape.len() ==> #[trigger] prefix_product(shape, i) == 0,
{
    assert forall|i: int| axis < i <= shape.len() implies #[trigger] prefix_product(shape, i)
        == 0 by {
        lemma_zero_behind(shape, axis, i);
    }
}

proof fn lemma_zero_behind(shape: Seq<usize>, axis: int, n: int)
    requires
        0 <= axis < n <= shape.len(),
        shape[axis] == 0,
    ensures
        prefix_product(shape, n) == 0,
    decreases n,
{
    if n - 1 > axis {
        lemma_zero_behind(shape, axis, n - 1);
    }
    assert(prefix_product(shape, n) == prefix_product(shape, n - 1) * (shape[n - 1] as nat));
    assert(prefix_product(shape, n - 1) * (shape[n - 1] as nat) == 0) by (nonlinear_arith)
        requires
            prefix_product(shape, n - 1) == 0 || shape[n - 1] == 0,
    ;
}

/// Where no axis has length zero, the products of longer prefixes are no
/// smaller: none of them exceeds the number of elements.
pub proof fn lemma_prefix_product_grows(shape: Seq<usize>, i: int, j: int)
    requires
        all_positive(shape),
        0 <= i <= j <= shape.len(),
    ensures
        prefix_product(shape, i) <= prefix_product(shape, j),
    decreases j - i,
{
    if i < j {
        lemma_prefix_product_grows(shape, i, j - 1);
        assert(shape[j - 1] != 0);
        assert(prefix_product(shape, j) == prefix_product(shape, j - 1) * (shape[j - 1] as nat));
        assert(prefix_product(shape, j - 1) <= prefix_product(shape, j - 1) * (shape[j - 1] as nat))
            by (nonlinear_arith)
            requires
                shape[j - 1] >= 1,
        ;
    }
}

} // verus!
