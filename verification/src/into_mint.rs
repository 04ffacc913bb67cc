//! The link between a type and the interchange type that it stands for.
use vstd::prelude::*;

verus! {

/// States which interchange type a type is equivalent to, so that a value
/// can be converted without naming the target: the conversion is the
/// type's `Into<Self::MintType>`.
///
/// Every interchange type is its own `MintType`. A math library
/// implements the trait for its own vector, matrix and rotation types, and
/// a function can then accept any type whose `MintType` is the one it
/// wants.
pub trait IntoMint: Into<Self::MintType> {
    /// The interchange type that this type stands for.
    type MintType;
}

} // verus!
