//! A sequence behind one value, whether it is borrowed or owned.

use vstd::prelude::*;
use vstd::std_specs::cmp::PartialEqSpec;
use crate::elements::{
    clone_is_exact, duplicate, duplicates, elementwise_eq, lemma_exact_duplicates, slices_equal,
};

verus! {

/// Where the elements of a [`CowVec`] live.
enum Storage<'a, T> {
    /// A view into a slice that somebody else owns.
    Borrowed(&'a [T]),
    /// A heap buffer that belongs to the container alone.
    Owned(Vec<T>),
}

/// A sequence that is either borrowed from a slice or held in a buffer of
/// its own.
///
/// Reading goes through [`CowVec::as_slice`] and does not depend on which of
/// the two it is. A buffer is only ever allocated by [`CowVec::into_owned`]
/// and by `clone`, and only where the container does not own one already.
/// An owned container gives its buffer up exactly once: to the caller of
/// `into_owned` or `try_owned`, or else to the allocator when it goes out of
/// scope. A borrowed container never touches the slice it looks at.
pub struct CowVec<'a, T> {
    storage: Storage<'a, T>,
}

impl<'a, T> View for CowVec<'a, T> {
    type V = Seq<T>;

    /// The elements, in order.
    closed spec fn view(&self) -> Seq<T> {
        match self.storage {
            Storage::Borrowed(s) => s@,
            Storage::Owned(v) => v@,
        }
    }
}

impl<'a, T> CowVec<'a, T> {
    /// The buffer that the container owns, if it owns one.
    pub closed spec fn buffer(&self) -> Option<Vec<T>> {
        match self.storage {
            Storage::Borrowed(_) => None,
            Storage::Owned(v) => Some(v),
        }
    }

    /// Whether the container owns its elements.
    pub open spec fn is_owned(&self) -> bool {
        self.buffer() is Some
    }

    /// The container that borrows `b`.
    pub closed spec fn spec_borrowed(b: &'a [T]) -> Self {
        CowVec { storage: Storage::Borrowed(b) }
    }

    /// The container that owns `v`.
    pub closed spec fn spec_owned(v: Vec<T>) -> Self {
        CowVec { storage: Storage::Owned(v) }
    }

    /// Whether `r` is what extracting ownership from this container may
    /// return: the owned buffer itself, or else a copy of the borrowed
    /// elements.
    pub open spec fn extracts_to(&self, r: Vec<T>) -> bool where T: Clone {
        match self.buffer() {
            Some(v) => r == v,
            None => duplicates(self@, r@),
        }
    }

    /// An owned container holds exactly what is in its buffer.
    pub proof fn lemma_buffer_view(&self)
        ensures
            self.buffer() matches Some(v) ==> v@ == self@,
    {
    }

    /// A container that borrows `s` reads as `s` and owns nothing.
    pub proof fn lemma_borrowed_reads_source(s: &'a [T])
        ensures
            Self::spec_borrowed(s)@ == s@,
            Self::spec_borrowed(s).buffer() is None,
    {
    }

    /// A container that owns `b` reads as `b` and has `b` for its buffer.
    pub proof fn lemma_owned_reads_buffer(b: Vec<T>)
        ensures
            Self::spec_owned(b)@ == b@,
            Self::spec_owned(b).buffer() == Some(b),
    {
    }

    /// Extracting ownership from a container that owns `b` gives `b`
    /// itself: no element is cloned.
    pub proof fn lemma_owned_extracts_buffer(b: Vec<T>, r: Vec<T>) where T: Clone
        requires
            Self::spec_owned(b).extracts_to(r),
        ensures
            r == b,
    {
    }

    /// Extracting ownership from a container that borrows `s` gives a
    /// buffer as long as `s` that holds, at each place, a clone of the
    /// element there. Where clones are exact, it holds what `s` holds.
    pub proof fn lemma_borrowed_extracts_copy(s: &'a [T], r: Vec<T>) where T: Clone
        requires
            Self::spec_borrowed(s).extracts_to(r),
        ensures
            duplicates(s@, r@),
            clone_is_exact::<T>() ==> r@ == s@,
    {
        if clone_is_exact::<T>() {
            lemma_exact_duplicates(s@, r@);
        }
    }

    /// Equality goes by the elements alone: whether either side is
    /// borrowed or owned makes no difference to it.
    pub proof fn lemma_eq_ignores_storage(a: Self, b: Self, c: Self) where T: PartialEq
        requires
            a@ == b@,
        ensures
            a.eq_spec(&c) == b.eq_spec(&c),
            c.eq_spec(&a) == c.eq_spec(&b),
    {
    }

    /// Borrows `b`. Nothing is allocated or copied.
    pub fn borrowed(b: &'a [T]) -> (c: Self)
        ensures
            c == Self::spec_borrowed(b),
            c@ == b@,
            !c.is_owned(),
    {
        CowVec { storage: Storage::Borrowed(b) }
    }

    /// Takes over `v`, with its allocation. Nothing is copied.
    pub fn owned(v: Vec<T>) -> (c: Self)
        ensures
            c == Self::spec_owned(v),
            c@ == v@,
            c.buffer() == Some(v),
    {
        CowVec { storage: Storage::Owned(v) }
    }

    /// The elements, read-only, for as long as the container is borrowed.
    pub fn as_slice(&self) -> (s: &[T])
        ensures
            s@ == self@,
    {
        match &self.storage {
            Storage::Borrowed(b) => b,
            Storage::Owned(v) => v.as_slice(),
        }
    }

    /// Hands out the buffer, allocating and cloning only where the
    /// container does not own one.
    pub fn into_owned(self) -> (r: Vec<T>) where T: Clone
        ensures
            self.extracts_to(r),
            self.is_owned() || clone_is_exact::<T>() ==> r@ == self@,
    {
        let keep = |v: Vec<T>| -> (r: Vec<T>)
            ensures
                r == v,
            {
                v
            };
        let copy = |s: &[T]| -> (r: Vec<T>)
            ensures
                duplicates(s@, r@),
            {
                duplicate(s)
            };
        let r = self.owned_or(keep, copy);
        proof {
            if !self.is_owned() && clone_is_exact::<T>() {
                lemma_exact_duplicates(self@, r@);
            }
        }
        r
    }

    /// Hands out the buffer if the container owns one, and nothing
    /// otherwise. Nothing is allocated or copied either way.
    pub fn try_owned(self) -> (r: Option<Vec<T>>)
        ensures
            r == self.buffer(),
            r is Some <==> self.is_owned(),
            r matches Some(v) ==> v@ == self@,
    {
        let keep = |v: Vec<T>| -> (r: Option<Vec<T>>)
            ensures
                r == Some(v),
            {
                Some(v)
            };
        let give_up = |s: &[T]| -> (r: Option<Vec<T>>)
            ensures
                r is None,
            {
                None
            };
        self.owned_or(keep, give_up)
    }

    /// The one place that tells the two kinds of storage apart when a
    /// container is consumed: an owned buffer goes to `map`, a borrowed
    /// slice to `or`.
    fn owned_or<Out, MF, OF>(self, map: MF, or: OF) -> (out: Out) where
        MF: FnOnce(Vec<T>) -> Out,
        OF: FnOnce(&[T]) -> Out,

        requires
            self.buffer() matches Some(v) ==> map.requires((v,)),
            !self.is_owned() ==> forall|s: &[T]| #[trigger] s@ == self@ ==> or.requires((s,)),
        ensures
            self.buffer() matches Some(v) ==> map.ensures((v,), out),
            !self.is_owned() ==> exists|s: &[T]| #[trigger] s@ == self@ && or.ensures((s,), out),
    {
        match self.storage {
            Storage::Borrowed(b) => {
                assert(b@ == self@);
                or(b)
            },
            Storage::Owned(v) => map(v),
        }
    }
}

impl<'a, T: Clone> Clone for CowVec<'a, T> {
    /// A borrowed container is copied as a view of the same slice. An
    /// owned one gets a buffer of its own, filled with clones: two
    /// containers never share a buffer.
    fn clone(&self) -> (c: Self)
        ensures
            c.is_owned() == self.is_owned(),
            !self.is_owned() ==> c == *self,
            self.is_owned() ==> duplicates(self@, c@),
    {
        match &self.storage {
            Storage::Borrowed(b) => CowVec { storage: Storage::Borrowed(*b) },
            Storage::Owned(v) => CowVec { storage: Storage::Owned(duplicate(v.as_slice())) },
        }
    }
}

impl<'a, T> core::ops::Deref for CowVec<'a, T> {
    type Target = [T];

    fn deref(&self) -> (s: &[T])
        ensures
            s@ == self@,
    {
        self.as_slice()
    }
}

impl<'a, T> AsRef<[T]> for CowVec<'a, T> {
    fn as_ref(&self) -> (s: &[T])
        ensures
            s@ == self@,
    {
        self.as_slice()
    }
}

impl<'a, T> From<&'a [T]> for CowVec<'a, T> {
    fn from(other: &'a [T]) -> (c: Self)
        ensures
            c@ == other@,
            !c.is_owned(),
    {
        CowVec::borrowed(other)
    }
}

impl<'a, T> vstd::std_specs::convert::FromSpecImpl<&'a [T]> for CowVec<'a, T> {
    open spec fn obeys_from_spec() -> bool {
        true
    }

    open spec fn from_spec(other: &'a [T]) -> Self {
        Self::spec_borrowed(other)
    }
}

impl<'a, T> From<Vec<T>> for CowVec<'a, T> {
    fn from(other: Vec<T>) -> (c: Self)
        ensures
            c@ == other@,
            c.buffer() == Some(other),
    {
        CowVec::owned(other)
    }
}

impl<'a, T> vstd::std_specs::convert::FromSpecImpl<Vec<T>> for CowVec<'a, T> {
    open spec fn obeys_from_spec() -> bool {
        true
    }

    open spec fn from_spec(other: Vec<T>) -> Self {
        Self::spec_owned(other)
    }
}

impl<'a, T: PartialEq> PartialEq<&'a [T]> for CowVec<'a, T> {
    fn eq(&self, other: &&'a [T]) -> (r: bool) {
        slices_equal(self.as_slice(), *other)
    }
}

impl<'a, T: PartialEq> vstd::std_specs::cmp::PartialEqSpecImpl<&'a [T]> for CowVec<'a, T> {
    open spec fn obeys_eq_spec() -> bool {
        T::obeys_eq_spec()
    }

    open spec fn eq_spec(&self, other: &&'a [T]) -> bool {
        elementwise_eq(self@, other@)
    }
}

impl<'a, T: PartialEq> PartialEq<Vec<T>> for CowVec<'a, T> {
    fn eq(&self, other: &Vec<T>) -> (r: bool) {
        slices_equal(self.as_slice(), other.as_slice())
    }
}

impl<'a, T: PartialEq> vstd::std_specs::cmp::PartialEqSpecImpl<Vec<T>> for CowVec<'a, T> {
    open spec fn obeys_eq_spec() -> bool {
        T::obeys_eq_spec()
    }

    open spec fn eq_spec(&self, other: &Vec<T>) -> bool {
        elementwise_eq(self@, other@)
    }
}

impl<'a, T: PartialEq> PartialEq for CowVec<'a, T> {
    fn eq(&self, other: &Self) -> (r: bool) {
        slices_equal(self.as_slice(), other.as_slice())
    }
}

impl<'a, T: PartialEq> vstd::std_specs::cmp::PartialEqSpecImpl for CowVec<'a, T> {
    open spec fn obeys_eq_spec() -> bool {
        T::obeys_eq_spec()
    }

    open spec fn eq_spec(&self, other: &Self) -> bool {
        elementwise_eq(self@, other@)
    }
}

} // verus!
