use vstd::prelude::*;
use vstd::slice::slice_index_get;

verus! {

/// Relies on `core::slice::from_ref`: the result is a slice of length one
/// whose single element is the referent.
pub assume_specification<T>[ core::slice::from_ref::<T> ](e: &T) -> (r: &[T])
    ensures
        r@ == seq![*e],
;

/// A non-empty read-only slice view, counterpart of `&[T]`.
///
/// Borrows a contiguous region from elsewhere and guarantees, for as long
/// as the view exists, that the region holds at least one element. The
/// guarantee is established once, at construction, so every accessor is
/// total: no `Option`, no panic path.
pub struct NonEmptySlice<'a, T> {
    inner: &'a [T],
}

impl<'a, T> View for NonEmptySlice<'a, T> {
    type V = Seq<T>;

    closed spec fn view(&self) -> Seq<T> {
        self.inner@
    }
}

impl<'a, T> Clone for NonEmptySlice<'a, T> {
    /// The view is freely duplicable: many copies may read the same
    /// region at once.
    fn clone(&self) -> (r: Self)
        ensures
            r@ == self@,
    {
        proof {
            use_type_invariant(self);
        }
        NonEmptySlice { inner: self.inner }
    }
}

impl<'a, T> Copy for NonEmptySlice<'a, T> {

}

impl<'a, T> NonEmptySlice<'a, T> {
    /// At least one element, always: established by every constructor and
    /// never given up, since the view is read-only.
    #[verifier::type_invariant]
    spec fn non_empty(self) -> bool {
        self.inner@.len() >= 1
    }

    /// Converts a `&T` into a `NonEmptySlice` of length one.
    pub fn from_ref(e: &'a T) -> (r: Self)
        ensures
            r@ == seq![*e],
    {
        NonEmptySlice { inner: core::slice::from_ref(e) }
    }

    /// Converts a `&[T]` into a `NonEmptySlice`; the slice must be
    /// non-empty.
    pub fn from_slice(slice: &'a [T]) -> (r: Self)
        requires
            slice@.len() >= 1,
        ensures
            r@ == slice@,
    {
        Self::from_slice_checked(slice).unwrap()
    }

    /// Converts a `&[T]` into a `NonEmptySlice`.
    /// Returns `None` if and only if the passed slice is empty.
    pub fn from_slice_checked(slice: &'a [T]) -> (r: Option<Self>)
        ensures
            r is Some <==> slice@.len() >= 1,
            r matches Some(s) ==> s@ == slice@,
    {
        if slice.is_empty() {
            return None;
        }
        Some(NonEmptySlice { inner: slice })
    }

    /// Returns a `&[T]` over the same memory, zero-copy.
    pub fn as_slice(&self) -> (r: &'a [T])
        ensures
            r@ == self@,
            r@.len() >= 1,
    {
        proof {
            use_type_invariant(self);
        }
        self.inner
    }

    /// Returns the number of elements in the slice, always at least one.
    pub fn len(&self) -> (r: usize)
        ensures
            r == self@.len(),
            r >= 1,
    {
        proof {
            use_type_invariant(self);
        }
        self.inner.len()
    }

    /// Always returns `false`: the slice is non-empty by construction, so
    /// this is a provable constant, kept for interface parity.
    pub fn is_empty(&self) -> (r: bool)
        ensures
            r == false,
            self@.len() >= 1,
    {
        proof {
            use_type_invariant(self);
        }
        false
    }

    /// Returns the first element of the slice.
    pub fn first(&self) -> (r: &'a T)
        ensures
            *r == self@[0],
    {
        proof {
            use_type_invariant(self);
        }
        slice_index_get(self.inner, 0)
    }

    /// Returns the last element of the slice. On a slice of length one
    /// this is the same element as `first`.
    pub fn last(&self) -> (r: &'a T)
        ensures
            *r == self@[self@.len() - 1],
    {
        proof {
            use_type_invariant(self);
        }
        slice_index_get(self.inner, self.inner.len() - 1)
    }

    /// Returns the first element and the rest of the slice, which may be
    /// empty.
    pub fn split_first(&self) -> (r: (&'a T, &'a [T]))
        ensures
            *r.0 == self@[0],
            r.1@ == self@.subrange(1, self@.len() as int),
    {
        proof {
            use_type_invariant(self);
        }
        let (head, rest) = self.inner.split_at(1);
        (slice_index_get(head, 0), rest)
    }

    /// Returns the last element and the rest of the slice, which may be
    /// empty.
    pub fn split_last(&self) -> (r: (&'a T, &'a [T]))
        ensures
            *r.0 == self@[self@.len() - 1],
            r.1@ == self@.subrange(0, self@.len() - 1),
    {
        proof {
            use_type_invariant(self);
        }
        let (rest, tail) = self.inner.split_at(self.inner.len() - 1);
        (slice_index_get(tail, 0), rest)
    }
}

/// On a view of length one, `first` and `last` return the same element:
/// index 0 and the final index coincide, so the contracts of `first` and
/// `last` name the same position.
pub proof fn lemma_single_element_first_is_last<'a, T>(s: NonEmptySlice<'a, T>)
    requires
        s@.len() == 1,
    ensures
        s@[0] == s@[s@.len() - 1],
{
}

} // verus!
