use vstd::prelude::*;

use crate::scalar::Scalar;

verus! {

/// A flat buffer of scalars whose length is fixed when it is made.
///
/// `elements` is the mathematical content of a storage: the scalars it holds,
/// by flat offset. Cloning a storage yields an independent one that holds the
/// same elements, which every implementation shows in `clone_keeps_elements`.
pub trait Storage<S: Scalar>: Clone {
    /// The scalars held, by flat offset.
    spec fn elements(&self) -> Seq<S>;

    /// The number of elements in the storage.
    fn len(&self) -> (n: usize)
        ensures
            n == self.elements().len(),
    ;

    /// Create a new storage with all elements initialized to zero.
    fn zeros(length: usize) -> (storage: Self)
        ensures
            storage.elements() == Seq::new(length as nat, |i: int| S::spec_zero()),
    ;

    /// Create a new storage with arbitrary elements.
    ///
    /// Only the length of the result is promised. Unless an implementation
    /// has a cheaper way, the elements are zero.
    fn uninitialized(length: usize) -> (storage: Self)
        ensures
            storage.elements().len() == length,
    {
        Self::zeros(length)
    }

    /// Whatever `clone` returns holds the elements of the storage it was
    /// called on.
    proof fn clone_keeps_elements(&self, copy: &Self)
        requires
            cloned(*self, *copy),
        ensures
            copy.elements() == self.elements(),
    ;
}

/// A storage that owns one contiguous heap buffer of exactly as many scalars
/// as it was made for.
#[derive(Debug)]
pub struct BoxStorage<S: Scalar> {
    data: Box<[S]>,
}

impl<S: Scalar> View for BoxStorage<S> {
    type V = Seq<S>;

    closed spec fn view(&self) -> Seq<S> {
        self.data@
    }
}

impl<S: Scalar> BoxStorage<S> {
    /// The elements of the storage, by flat offset.
    pub fn as_slice(&self) -> (cells: &[S])
        ensures
            cells@ == self@,
    {
        &self.data
    }

    /// The elements of the storage, by flat offset, to be written in place.
    pub fn as_mut_slice(&mut self) -> (cells: &mut [S])
        ensures
            cells@ == old(self)@,
            final(self)@ == final(cells)@,
    {
        &mut self.data
    }
}

impl<S: Scalar> Clone for BoxStorage<S> {
    /// Copies the buffer: the result holds the same elements in a buffer of
    /// its own.
    fn clone(&self) -> (copy: Self)
        ensures
            copy@ == self@,
    {
        let length: usize = self.data.len();
        let mut elements: Vec<S> = Vec::with_capacity(length);
        let mut index: usize = 0;
        while index < length
            invariant
                length == self.data@.len(),
                index <= length,
                elements@ == self.data@.take(index as int),
            decreases length - index,
        {
            elements.push(self.data[index]);
            index = index + 1;
        }
        assert(self.data@.take(length as int) == self.data@);
        BoxStorage { data: into_boxed_slice(elements) }
    }
}

impl<S: Scalar> Storage<S> for BoxStorage<S> {
    open spec fn elements(&self) -> Seq<S> {
        self@
    }

    fn len(&self) -> (n: usize)
        ensures
            n == self@.len(),
    {
        self.data.len()
    }

    fn zeros(length: usize) -> (storage: Self)
        ensures
            storage@ == Seq::new(length as nat, |i: int| S::spec_zero()),
    {
        let mut elements: Vec<S> = Vec::with_capacity(length);
        let mut index: usize = 0;
        while index < length
            invariant
                index <= length,
                elements@ == Seq::new(index as nat, |i: int| S::spec_zero()),
            decreases length - index,
        {
            elements.push(S::zero());
            index = index + 1;
        }
        BoxStorage { data: into_boxed_slice(elements) }
    }

    /// Falls back to zero-filling: the buffer is never handed out unset.
    fn uninitialized(length: usize) -> (storage: Self)
        ensures
            storage@ == Seq::new(length as nat, |i: int| S::spec_zero()),
    {
        Self::zeros(length)
    }

    proof fn clone_keeps_elements(&self, copy: &Self) {
    }
}

/// `Vec::into_boxed_slice` of std: the boxed slice that it returns holds the
/// elements of the vector, in the same order.
#[verifier::external_body]
fn into_boxed_slice<S>(elements: Vec<S>) -> (boxed: Box<[S]>)
    ensures
        boxed@ == elements@,
{
    elements.into_boxed_slice()
}

} // verus!
