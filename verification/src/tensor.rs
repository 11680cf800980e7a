use std::marker::PhantomData;

use vstd::prelude::*;

use crate::layout::{
    all_positive, is_dense_layout, layout_fits, lemma_dense_layout_recurrence,
    lemma_empty_shape_has_one_element, lemma_prefix_product_grows, lemma_zero_axis,
    prefix_product, shape_product, strides_fit,
};
use crate::scalar::Scalar;
use crate::storage::Storage;

verus! {

/// What a tensor is to its contracts: the scalars it holds by flat offset, the
/// number of elements along each axis, and the number of elements to skip for
/// one step along each axis.
pub struct TensorView<T> {
    pub elements: Seq<T>,
    pub shape: Seq<usize>,
    pub strides: Seq<usize>,
}

impl<T> TensorView<T> {
    /// There is exactly one element for each position of the shape.
    pub open spec fn well_formed(self) -> bool {
        self.elements.len() == shape_product(self.shape)
    }
}

/// An array of fixed rank: a storage together with the number of elements
/// along each axis and the number of elements to skip in the storage for one
/// step along each axis.
#[derive(Debug)]
pub struct Tensor<T: Scalar, const RANK: usize, S: Storage<T>> {
    storage: S,
    shape: [usize; RANK],
    strides: [usize; RANK],
    _scalar: PhantomData<T>,
}

impl<T: Scalar, const RANK: usize, S: Storage<T>> View for Tensor<T, RANK, S> {
    type V = TensorView<T>;

    open spec fn view(&self) -> TensorView<T> {
        TensorView {
            elements: self.spec_storage().elements(),
            shape: self.spec_shape()@,
            strides: self.spec_strides()@,
        }
    }
}

impl<T: Scalar, const RANK: usize, S: Storage<T>> Tensor<T, RANK, S> {
    /// The storage that the tensor owns.
    pub closed spec fn spec_storage(&self) -> S {
        self.storage
    }

    /// The number of elements along each axis.
    pub closed spec fn spec_shape(&self) -> [usize; RANK] {
        self.shape
    }

    /// The number of elements to skip for one step along each axis.
    pub closed spec fn spec_strides(&self) -> [usize; RANK] {
        self.strides
    }

    /// The storage holds exactly one element for each position of the shape.
    pub open spec fn well_formed(&self) -> bool {
        self@.well_formed()
    }

    /// Create a new tensor from a raw storage, shape, and strides.
    ///
    /// The storage is taken as it is, neither copied nor reallocated, and the
    /// strides are not looked at. That the storage has one element for each
    /// position of the shape is asked of the caller and never tested at run
    /// time.
    pub fn new(storage: S, shape: [usize; RANK], strides: [usize; RANK]) -> (tensor: Self)
        requires
            storage.elements().len() == shape_product(shape@),
        ensures
            tensor.spec_storage() == storage,
            tensor.spec_shape() == shape,
            tensor.spec_strides() == strides,
            tensor.well_formed(),
    {
        Tensor { storage, shape, strides, _scalar: PhantomData }
    }

    /// Create a tensor with all elements initialized to zero.
    ///
    /// The storage is what `S::zeros` hands out for the number of elements of
    /// the shape, and the strides are those of the dense layout whose first
    /// axis varies fastest. A shape of rank zero gives one element, and a
    /// shape with an axis of length zero gives none.
    pub fn zeros(shape: [usize; RANK]) -> (tensor: Self)
        requires
            layout_fits(shape@),
        ensures
            tensor@.shape == shape@,
            is_dense_layout(shape@, tensor@.strides),
            tensor@.elements == Seq::new(shape_product(shape@), |i: int| T::spec_zero()),
            call_ensures(S::zeros, (shape_product(shape@) as usize,), tensor.spec_storage()),
            tensor.well_formed(),
    {
        Self::new(S::zeros(element_count(&shape)), shape, default_strides(shape))
    }

    /// Create a tensor with all elements uninitialized.
    ///
    /// The storage is what `S::uninitialized` hands out for the number of
    /// elements of the shape: of its elements only their number is known,
    /// unless the storage type says more. The strides are those of `zeros`.
    pub fn uninitialized(shape: [usize; RANK]) -> (tensor: Self)
        requires
            layout_fits(shape@),
        ensures
            tensor@.shape == shape@,
            is_dense_layout(shape@, tensor@.strides),
            tensor@.elements.len() == shape_product(shape@),
            call_ensures(
                S::uninitialized,
                (shape_product(shape@) as usize,),
                tensor.spec_storage(),
            ),
            tensor.well_formed(),
    {
        Self::new(S::uninitialized(element_count(&shape)), shape, default_strides(shape))
    }

    /// Get the shape of the tensor.
    pub fn shape(&self) -> (shape: &[usize; RANK])
        ensures
            *shape == self.spec_shape(),
            shape@ == self@.shape,
    {
        &self.shape
    }

    /// Get the strides of the tensor.
    pub fn strides(&self) -> (strides: &[usize; RANK])
        ensures
            *strides == self.spec_strides(),
            strides@ == self@.strides,
    {
        &self.strides
    }

    /// Get the storage of the tensor.
    pub fn storage(&self) -> (storage: &S)
        ensures
            *storage == self.spec_storage(),
            storage.elements() == self@.elements,
    {
        &self.storage
    }

    /// Mutably borrow the storage of the tensor.
    ///
    /// Whatever the borrower leaves behind is the storage of the tensor from
    /// then on, so that a later `storage` reads what was written; shape and
    /// strides stay as they are.
    pub fn storage_mut(&mut self) -> (storage: &mut S)
        ensures
            *storage == old(self).spec_storage(),
            final(self).spec_storage() == *final(storage),
            final(self).spec_shape() == old(self).spec_shape(),
            final(self).spec_strides() == old(self).spec_strides(),
    {
        &mut self.storage
    }

    /// A well-formed tensor of rank zero holds exactly one element.
    pub proof fn lemma_rank_zero_has_one_element(self)
        requires
            self.well_formed(),
            RANK == 0,
        ensures
            self@.elements.len() == 1,
    {
        lemma_empty_shape_has_one_element(self@.shape);
    }

    /// A well-formed tensor with an axis of length zero holds no element.
    pub proof fn lemma_zero_axis_has_no_element(self, axis: int)
        requires
            self.well_formed(),
            0 <= axis < RANK,
            self@.shape[axis] == 0,
        ensures
            self@.elements.len() == 0,
    {
        lemma_zero_axis(self@.shape, axis);
    }
}

impl<T: Scalar, const RANK: usize, S: Storage<T>> Clone for Tensor<T, RANK, S> {
    /// Duplicates the tensor, storage included: the copy owns a clone of the
    /// storage, which holds the same elements, and has the same shape and
    /// strides.
    fn clone(&self) -> (copy: Self)
        ensures
            cloned(self.spec_storage(), copy.spec_storage()),
            copy@ == self@,
    {
        let storage = self.storage.clone();
        proof {
            self.storage.clone_keeps_elements(&storage);
        }
        Tensor { storage, shape: self.shape, strides: self.strides, _scalar: PhantomData }
    }
}

/// Whether every dense stride of `shape` and its number of elements can be
/// held in a `usize`: the test to make before `Tensor::zeros` and
/// `Tensor::uninitialized` on a shape that is not known beforehand.
pub fn shape_fits<const RANK: usize>(shape: &[usize; RANK]) -> (fits: bool)
    ensures
        fits == layout_fits(shape@),
{
    let mut product: usize = 1;
    let mut index: usize = 0;
    while index < RANK
        invariant
            index <= RANK,
            product == prefix_product(shape@, index as int),
            forall|i: int| 0 <= i <= index ==> #[trigger] prefix_product(shape@, i) <= usize::MAX,
        decreases RANK - index,
    {
        assert(prefix_product(shape@, index + 1) == product * shape@[index as int]);
        match product.checked_mul(shape[index]) {
            Some(next) => {
                product = next;
            },
            None => {
                assert(prefix_product(shape@, index + 1) > usize::MAX);
                assert(!layout_fits(shape@)) by {
                    if index + 1 < RANK {
                        assert(!strides_fit(shape@));
                    }
                }
                return false;
            },
        }
        index = index + 1;
    }
    true
}

/// The number of elements of a tensor of the given shape: the product of its
/// entries, or one for a shape without axes.
pub fn element_count<const RANK: usize>(shape: &[usize; RANK]) -> (count: usize)
    requires
        shape_product(shape@) <= usize::MAX,
    ensures
        count == shape_product(shape@),
{
    let mut index: usize = 0;
    while index < RANK
        invariant
            index <= RANK,
            forall|i: int| 0 <= i < index ==> #[trigger] shape@[i] != 0,
        decreases RANK - index,
    {
        if shape[index] == 0 {
            proof {
                lemma_zero_axis(shape@, index as int);
            }
            return 0;
        }
        index = index + 1;
    }
    let mut count: usize = 1;
    index = 0;
    while index < RANK
        invariant
            index <= RANK,
            all_positive(shape@),
            shape_product(shape@) <= usize::MAX,
            count == prefix_product(shape@, index as int),
        decreases RANK - index,
    {
        proof {
            lemma_prefix_product_grows(shape@, index + 1, RANK as int);
        }
        count = count * shape[index];
        index = index + 1;
    }
    count
}

/// The strides of the dense layout of `shape` whose first axis varies
/// fastest: the stride of the first axis is one, and the stride of every other
/// axis is the stride of the axis before it times the length of that axis.
pub fn default_strides<const RANK: usize>(shape: [usize; RANK]) -> (strides: [usize; RANK])
    requires
        strides_fit(shape@),
    ensures
        is_dense_layout(shape@, strides@),
        RANK > 0 ==> strides@[0] == 1,
        forall|i: int| 1 <= i < RANK ==> #[trigger] strides@[i] == strides@[i - 1] * shape@[i - 1],
{
    let mut strides = [0usize; RANK];
    let mut index: usize = 0;
    let mut stride: usize = 1;
    while index < RANK
        invariant
            index <= RANK,
            strides_fit(shape@),
            index < RANK ==> stride == prefix_product(shape@, index as int),
            forall|i: int| 0 <= i < index ==> #[trigger] strides@[i] == prefix_product(shape@, i),
        decreases RANK - index,
    {
        strides[index] = stride;
        index = index + 1;
        if index < RANK {
            assert(prefix_product(shape@, index as int) <= usize::MAX);
            stride = stride * shape[index - 1];
        }
    }
    proof {
        lemma_dense_layout_recurrence(shape@, strides@);
    }
    strides
}

} // verus!
