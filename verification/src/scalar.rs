use vstd::prelude::*;

verus! {

/// An element type of a tensor: a fixed-width number that is copied freely
/// and has a zero.
///
/// `spec_zero` names the zero of the type in contracts, and `zero` hands it
/// out at run time. Every storage fills a fresh buffer with that value.
pub trait Scalar: Copy {
    /// The zero of this type.
    spec fn spec_zero() -> Self;

    /// Returns the zero of this type.
    fn zero() -> (z: Self)
        ensures
            z == Self::spec_zero(),
    ;
}

impl Scalar for i8 {
    open spec fn spec_zero() -> i8 {
        0
    }

    fn zero() -> (z: i8)
        ensures
            z == 0,
    {
        0
    }
}

impl Scalar for i16 {
    open spec fn spec_zero() -> i16 {
        0
    }

    fn zero() -> (z: i16)
        ensures
            z == 0,
    {
        0
    }
}

impl Scalar for i32 {
    open spec fn spec_zero() -> i32 {
        0
    }

    fn zero() -> (z: i32)
        ensures
            z == 0,
    {
        0
    }
}

impl Scalar for i64 {
    open spec fn spec_zero() -> i64 {
        0
    }

    fn zero() -> (z: i64)
        ensures
            z == 0,
    {
        0
    }
}

impl Scalar for i128 {
    open spec fn spec_zero() -> i128 {
        0
    }

    fn zero() -> (z: i128)
        ensures
            z == 0,
    {
        0
    }
}

impl Scalar for isize {
    open spec fn spec_zero() -> isize {
        0
    }

    fn zero() -> (z: isize)
        ensures
            z == 0,
    {
        0
    }
}

impl Scalar for u8 {
    open spec fn spec_zero() -> u8 {
        0
    }

    fn zero() -> (z: u8)
        ensures
            z == 0,
    {
        0
    }
}

impl Scalar for u16 {
    open spec fn spec_zero() -> u16 {
        0
    }

    fn zero() -> (z: u16)
        ensures
            z == 0,
    {
        0
    }
}

impl Scalar for u32 {
    open spec fn spec_zero() -> u32 {
        0
    }

    fn zero() -> (z: u32)
        ensures
            z == 0,
    {
        0
    }
}

impl Scalar for u64 {
    open spec fn spec_zero() -> u64 {
        0
    }

    fn zero() -> (z: u64)
        ensures
            z == 0,
    {
        0
    }
}

impl Scalar for u128 {
    open spec fn spec_zero() -> u128 {
        0
    }

    fn zero() -> (z: u128)
        ensures
            z == 0,
    {
        0
    }
}

impl Scalar for usize {
    open spec fn spec_zero() -> usize {
        0
    }

    fn zero() -> (z: usize)
        ensures
            z == 0,
    {
        0
    }
}

} // verus!
