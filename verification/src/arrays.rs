//! The fixed-capacity-array capability: what a fixed-size array type exposes
//! so that the fill pipeline can target it.

use vstd::prelude::*;

verus! {

/// Capability of a fixed-size array type: its capacity is a property of the
/// type alone, and a fully prepared sequence of exactly that many elements
/// can be promoted into a value of the type. Implemented below for every
/// `[T; N]`.
pub trait IsParArray: Sized {
    /// The element type of the array.
    type Item;

    /// The capacity, a property of the type alone.
    spec fn spec_len() -> nat;

    /// The contents of an array value, slot by slot.
    spec fn contents(&self) -> Seq<Self::Item>;

    /// The capacity, as executable code reads it.
    fn len() -> (n: usize)
        ensures
            n as nat == Self::spec_len(),
    ;

    /// Promotes a vector holding exactly one element per slot into an array
    /// value with those contents.
    fn from_elems(elems: Vec<Self::Item>) -> (arr: Self)
        requires
            elems@.len() == Self::spec_len(),
        ensures
            arr.contents() == elems@,
    ;
}

/// Relies on std's `TryFrom<Vec<T>> for [T; N]`: the conversion returns `Ok`
/// exactly when the vector's length is `N`, moving the elements over in
/// order.
#[verifier::external_body]
fn vec_into_array<T, const N: usize>(elems: Vec<T>) -> (arr: [T; N])
    requires
        elems@.len() == N,
    ensures
        arr@ == elems@,
{
    elems.try_into().ok().unwrap()
}

impl<T, const N: usize> IsParArray for [T; N] {
    type Item = T;

    open spec fn spec_len() -> nat {
        N as nat
    }

    open spec fn contents(&self) -> Seq<T> {
        self@
    }

    fn len() -> usize {
        N
    }

    fn from_elems(elems: Vec<T>) -> [T; N] {
        vec_into_array(elems)
    }
}

} // verus!
