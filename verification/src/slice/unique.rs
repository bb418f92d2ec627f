use vstd::prelude::*;
use vstd::slice::slice_index_get;

verus! {

/// Relies on `core::slice::from_mut`: the result is a slice of length one
/// viewing the referent, so it starts as the referent's current value,
/// stays of length one, and the referent's final value is whatever is
/// last written through the slice.
pub assume_specification<T>[ core::slice::from_mut::<T> ](e: &mut T) -> (r: &mut [T])
    ensures
        r@ == seq![*old(e)],
        final(r)@.len() == 1,
        *final(e) == final(r)@[0],
;

/// A non-empty exclusive slice view, counterpart of `&mut [T]`.
///
/// Borrows a contiguous region with exclusive write access. Non-emptiness
/// is checked at construction; afterwards `first`, `last` and the `split`
/// operations need no bounds checks, and every write made through the
/// view lands in the borrowed-from memory.
pub struct NonEmptyMutSlice<'a, T> {
    /// The underlying exclusive region. Exposed so that contracts can
    /// relate the view's future contents to the borrowed-from memory;
    /// filling it directly is the raw construction seam, and a caller who
    /// does so carries the non-emptiness obligation that the constructors
    /// otherwise establish.
    pub inner: &'a mut [T],
}

impl<'a, T> View for NonEmptyMutSlice<'a, T> {
    type V = Seq<T>;

    open spec fn view(&self) -> Seq<T> {
        self.inner@
    }
}

impl<'a, T> NonEmptyMutSlice<'a, T> {
    /// At least one element. Every constructor establishes it, writes
    /// through the view cannot change the length, and each accessor asks
    /// for it back.
    pub open spec fn wf(&self) -> bool {
        self@.len() >= 1
    }

    /// Converts a `&mut T` into a `NonEmptyMutSlice` of length one.
    pub fn from_mut(e: &'a mut T) -> (r: Self)
        ensures
            r@ == seq![*old(e)],
            final(r.inner)@.len() == 1,
            *final(e) == final(r.inner)@[0],
    {
        NonEmptyMutSlice { inner: core::slice::from_mut(e) }
    }

    /// Converts a `&mut [T]` into a `NonEmptyMutSlice`; the slice must be
    /// non-empty.
    pub fn from_slice(slice: &'a mut [T]) -> (r: Self)
        requires
            old(slice)@.len() >= 1,
        ensures
            r@ == old(slice)@,
            r.wf(),
            final(r.inner)@ == final(slice)@,
    {
        NonEmptyMutSlice { inner: slice }
    }

    /// Converts a `&mut [T]` into a `NonEmptyMutSlice`.
    /// Returns `None` if and only if the passed slice is empty, leaving
    /// the slice untouched.
    pub fn from_slice_checked(slice: &'a mut [T]) -> (r: Option<Self>)
        ensures
            r is Some <==> old(slice)@.len() >= 1,
            r matches Some(s) ==> s@ == old(slice)@ && s.wf() && final(s.inner)@ == final(slice)@,
            r is None ==> final(slice)@ == old(slice)@,
    {
        if slice.is_empty() {
            return None;
        }
        Some(NonEmptyMutSlice { inner: slice })
    }

    /// Returns a `&[T]` over the same memory, zero-copy.
    pub fn as_slice(&self) -> (r: &[T])
        ensures
            r@ == self@,
    {
        &*self.inner
    }

    /// Returns a `&mut [T]` over the same memory, zero-copy; writes made
    /// through it show up in the view, and in the borrowed-from memory.
    pub fn as_mut_slice(&mut self) -> (r: &mut [T])
        ensures
            r@ == old(self)@,
            final(self)@ == final(r)@,
            final(final(self).inner)@ == final(old(self).inner)@,
    {
        &mut *self.inner
    }

    /// Returns the number of elements in the slice, always at least one.
    pub fn len(&self) -> (r: usize)
        requires
            self.wf(),
        ensures
            r == self@.len(),
            r >= 1,
    {
        self.inner.len()
    }

    /// Always returns `false`: the slice is non-empty by construction, so
    /// this is a provable constant, kept for interface parity.
    pub fn is_empty(&self) -> (r: bool)
        requires
            self.wf(),
        ensures
            r == false,
    {
        false
    }

    /// Returns the first element of the slice.
    pub fn first(&self) -> (r: &T)
        requires
            self.wf(),
        ensures
            *r == self@[0],
    {
        slice_index_get(&*self.inner, 0)
    }

    /// Returns an exclusive reference to the first element of the slice;
    /// what is last written through it becomes the view's first element.
    pub fn first_mut(&mut self) -> (r: &mut T)
        requires
            old(self).wf(),
        ensures
            *r == old(self)@[0],
            final(self)@ == old(self)@.update(0, *final(r)),
            final(final(self).inner)@ == final(old(self).inner)@,
    {
        self.inner.first_mut().unwrap()
    }

    /// Returns the last element of the slice. On a slice of length one
    /// this is the same element as `first`.
    pub fn last(&self) -> (r: &T)
        requires
            self.wf(),
        ensures
            *r == self@[self@.len() - 1],
    {
        slice_index_get(&*self.inner, self.inner.len() - 1)
    }

    /// Returns an exclusive reference to the last element of the slice;
    /// what is last written through it becomes the view's last element.
    pub fn last_mut(&mut self) -> (r: &mut T)
        requires
            old(self).wf(),
        ensures
            *r == old(self)@[old(self)@.len() - 1],
            final(self)@ == old(self)@.update(old(self)@.len() - 1, *final(r)),
            final(final(self).inner)@ == final(old(self).inner)@,
    {
        self.inner.last_mut().unwrap()
    }

    /// Returns the first element and the rest of the slice, which may be
    /// empty.
    pub fn split_first(&self) -> (r: (&T, &[T]))
        requires
            self.wf(),
        ensures
            *r.0 == self@[0],
            r.1@ == self@.subrange(1, self@.len() as int),
    {
        let (head, rest) = (&*self.inner).split_at(1);
        (slice_index_get(head, 0), rest)
    }

    /// Returns exclusive references to the first element and to the rest
    /// of the slice; writes through either land in the view.
    pub fn split_first_mut(&mut self) -> (r: (&mut T, &mut [T]))
        requires
            old(self).wf(),
        ensures
            *r.0 == old(self)@[0],
            r.1@ == old(self)@.subrange(1, old(self)@.len() as int),
            final(self)@ == seq![*final(r.0)] + final(r.1)@,
            final(final(self).inner)@ == final(old(self).inner)@,
    {
        let (head, rest) = self.inner.split_at_mut(1);
        let e = head.first_mut().unwrap();
        proof {
            assert(old(self)@.subrange(0, 1).update(0, *final(e)) =~= seq![*final(e)]);
        }
        (e, rest)
    }

    /// Returns the last element and the rest of the slice, which may be
    /// empty.
    pub fn split_last(&self) -> (r: (&T, &[T]))
        requires
            self.wf(),
        ensures
            *r.0 == self@[self@.len() - 1],
            r.1@ == self@.subrange(0, self@.len() - 1),
    {
        let (rest, tail) = (&*self.inner).split_at(self.inner.len() - 1);
        (slice_index_get(tail, 0), rest)
    }

    /// Returns exclusive references to the last element and to the rest
    /// of the slice; writes through either land in the view.
    pub fn split_last_mut(&mut self) -> (r: (&mut T, &mut [T]))
        requires
            old(self).wf(),
        ensures
            *r.0 == old(self)@[old(self)@.len() - 1],
            r.1@ == old(self)@.subrange(0, old(self)@.len() - 1),
            final(self)@ == final(r.1)@ + seq![*final(r.0)],
            final(final(self).inner)@ == final(old(self).inner)@,
    {
        let mid = self.inner.len() - 1;
        let (rest, tail) = self.inner.split_at_mut(mid);
        let e = tail.first_mut().unwrap();
        proof {
            assert(old(self)@.subrange(old(self)@.len() - 1, old(self)@.len() as int).update(
                0,
                *final(e),
            ) =~= seq![*final(e)]);
        }
        (e, rest)
    }
}

/// Writes made through an exclusive view's edge accessors are visible in
/// the borrowed-from slice afterwards: for every non-empty slice, setting
/// the first element to `x` and the last to `y` through a view leaves the
/// slice equal to itself with exactly those positions updated.
pub fn write_edges_through_view<T>(slice: &mut [T], x: T, y: T)
    requires
        old(slice)@.len() >= 1,
    ensures
        final(slice)@ == old(slice)@.update(0, x).update(old(slice)@.len() - 1, y),
{
    let mut view = NonEmptyMutSlice::from_slice(slice);
    *view.first_mut() = x;
    *view.last_mut() = y;
}

/// Writes made through the halves of `split_first_mut` are visible in the
/// borrowed-from slice afterwards: for every slice of at least two
/// elements, writing `x` through the head reference and `y` at the start
/// of the tail updates exactly the first two positions.
pub fn write_split_through_view<T>(slice: &mut [T], x: T, y: T)
    requires
        old(slice)@.len() >= 2,
    ensures
        final(slice)@ == old(slice)@.update(0, x).update(1, y),
{
    let mut view = NonEmptyMutSlice::from_slice(slice);
    let (head, rest) = view.split_first_mut();
    *head = x;
    rest[0] = y;
}

} // verus!
