//! The two entry points: filling a fixed-size array from an indexed source
//! of elements, and from an index-to-element function.

use vstd::prelude::*;

use rayon::iter::IntoParallelIterator;
use rayon::iter::ParallelIterator;

use crate::arrays::IsParArray;
use crate::buffer::UninitBuffer;

verus! {

/// Relies on rayon's `into_par_iter` over `0..n`, `map` and `collect`: the
/// indexed pipeline evaluates `f` once per index on parallel workers and
/// collects the results in index order, so the vector has length `n` and
/// holds an output of `f(i)` at position `i`.
#[verifier::external_body]
fn par_map_indices<T, F>(n: usize, f: F) -> (elems: Vec<T>)
    where
        T: Send,
        F: Fn(usize) -> T + Send + Sync,
    requires
        forall|i: usize| i < n ==> call_requires(f, (i,)),
    ensures
        elems@.len() == n,
        forall|i: int| 0 <= i < n ==> call_ensures(f, ((i as usize),), #[trigger] elems@[i]),
{
    (0..n).into_par_iter().map(f).collect()
}

/// Fills an array of capacity `N` from an indexed source of elements, in
/// parallel. Succeeds exactly when the source offers at least `N` elements,
/// and the result then holds the first `N` of them, element `i` in slot `i`;
/// a shorter source is rejected before any storage is allocated or any slot
/// is touched.
pub fn from_iter<A: IsParArray>(src: Vec<A::Item>) -> (result: Option<A>)
    where
        A::Item: Copy + Send + Sync,
    ensures
        result is Some <==> A::spec_len() <= src@.len(),
        (result matches Some(arr) ==> arr.contents() == src@.take(A::spec_len() as int)),
{
    let n = A::len();
    if n > src.len() {
        return None;
    }
    let mut buf = UninitBuffer::<A::Item>::new(n);
    buf.par_fill_from(&src);
    let elems = buf.promote();
    proof {
        assert(elems@ =~= src@.take(A::spec_len() as int));
    }
    Some(A::from_elems(elems))
}

/// Fills an array of capacity `N` by calling `initializer` once per index,
/// across parallel workers in no particular order: slot `i` of the result
/// holds an output of `initializer(i)`. The synthesized index source has
/// length exactly `N`, so the fill cannot fail.
pub fn par_array_init<A, F>(initializer: F) -> (arr: A)
    where
        A: IsParArray,
        A::Item: Copy + Send + Sync,
        F: Fn(usize) -> A::Item + Send + Sync,
    requires
        forall|i: usize| i < A::spec_len() ==> call_requires(initializer, (i,)),
    ensures
        arr.contents().len() == A::spec_len(),
        forall|i: int|
            0 <= i < A::spec_len()
                ==> call_ensures(initializer, ((i as usize),), #[trigger] arr.contents()[i]),
{
    let n = A::len();
    let elems = par_map_indices(n, initializer);
    proof {
        assert(elems@.take(A::spec_len() as int) =~= elems@);
    }
    let result = from_iter::<A>(elems);
    result.unwrap()
}

/// Law: index correspondence. A successful fill keeps the first `n` source
/// elements, so reading any slot `i` of the result gives source element `i`,
/// independently of the order in which the slots were written.
pub proof fn lemma_index_correspondence<T>(src: Seq<T>, n: int, i: int)
    requires
        0 <= i < n <= src.len(),
    ensures
        src.take(n)[i] == src[i],
{
}

/// Law: zero capacity. A fill into capacity zero succeeds for every source
/// length, and the contents it keeps are empty.
pub proof fn lemma_zero_capacity<T>(src: Seq<T>)
    ensures
        0 <= src.len(),
        src.take(0) == Seq::<T>::empty(),
{
    assert(src.take(0) =~= Seq::<T>::empty());
}

} // verus!
