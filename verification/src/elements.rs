//! What it means for one sequence to be a copy of another, or to equal
//! it, when the elements bring their own `Clone` and `PartialEq`.

use vstd::prelude::*;
use vstd::std_specs::cmp::PartialEqSpec;

verus! {

/// Whether `copy` is what cloning `source` element by element can give: as
/// long as `source`, and at each place a clone of the element there.
pub open spec fn duplicates<T: Clone>(source: Seq<T>, copy: Seq<T>) -> bool {
    &&& copy.len() == source.len()
    &&& forall|i: int| 0 <= i < source.len() ==> cloned::<T>(#[trigger] source[i], copy[i])
}

/// Whether cloning a `T` always gives back an equal value.
pub open spec fn clone_is_exact<T: Clone>() -> bool {
    forall|a: T, b: T| #[trigger] cloned::<T>(a, b) ==> a == b
}

/// Whether `a` and `b` have the same length and, place by place, elements
/// that `T`'s `==` takes for equal.
pub open spec fn elementwise_eq<T: PartialEq>(a: Seq<T>, b: Seq<T>) -> bool {
    &&& a.len() == b.len()
    &&& forall|i: int| 0 <= i < a.len() ==> #[trigger] a[i].eq_spec(&b[i])
}

/// Whether `T`'s `==` holds of two values exactly when they are the same.
pub open spec fn eq_is_identity<T: PartialEq>() -> bool {
    forall|a: T, b: T| #[trigger] a.eq_spec(&b) <==> a == b
}

/// Where `==` on the elements is identity, two sequences are equal element
/// by element exactly when they are the same sequence.
pub proof fn lemma_elementwise_identity<T: PartialEq>(a: Seq<T>, b: Seq<T>)
    requires
        eq_is_identity::<T>(),
    ensures
        elementwise_eq(a, b) <==> a == b,
{
    if elementwise_eq(a, b) {
        assert forall|i: int| 0 <= i < a.len() implies a[i] == b[i] by {
            assert(a[i].eq_spec(&b[i]));
        }
        assert(a =~= b);
    }
}

/// Two bytes are `==` exactly when they are the same byte.
pub proof fn lemma_byte_eq_is_identity()
    ensures
        eq_is_identity::<u8>(),
        u8::obeys_eq_spec(),
{
}

/// Where clones are exact, a copy is the same sequence as its source.
pub proof fn lemma_exact_duplicates<T: Clone>(source: Seq<T>, copy: Seq<T>)
    requires
        clone_is_exact::<T>(),
        duplicates(source, copy),
    ensures
        copy == source,
{
    assert(copy =~= source);
}

/// Cloning a byte gives the same byte.
pub proof fn lemma_byte_clone_is_exact()
    ensures
        clone_is_exact::<u8>(),
{
}

/// Clones the elements of `source`, in order, into a new buffer.
pub fn duplicate<T: Clone>(source: &[T]) -> (copy: Vec<T>)
    ensures
        duplicates(source@, copy@),
{
    let mut copy: Vec<T> = Vec::with_capacity(source.len());
    copy.extend_from_slice(source);
    copy
}

/// Compares two slices element by element, stopping at the first
/// difference.
pub fn slices_equal<T: PartialEq>(a: &[T], b: &[T]) -> (r: bool)
    ensures
        T::obeys_eq_spec() ==> r == elementwise_eq(a@, b@),
{
    if a.len() != b.len() {
        return false;
    }
    let mut i: usize = 0;
    while i < a.len()
        invariant
            a@.len() == b@.len(),
            i <= a@.len(),
            T::obeys_eq_spec() ==> forall|j: int| 0 <= j < i ==> #[trigger] a@[j].eq_spec(&b@[j]),
        decreases a@.len() - i,
    {
        if a[i] != b[i] {
            return false;
        }
        i += 1;
    }
    true
}

} // verus!
