use vstd::pervasive::cloned;
use vstd::prelude::*;

use crate::slice::NonEmptySlice;

verus! {

/// Relies on `Vec::capacity`: the capacity of a vector is at least its
/// length.
#[verifier::external_body]
fn vec_capacity<T>(v: &Vec<T>) -> (r: usize)
    ensures
        r >= v@.len(),
{
    v.capacity()
}

/// A non-empty vector, counterpart of `Vec<T>`.
///
/// Owns a heap-allocated contiguous region of at least one element.
/// Constructed by taking over a non-empty vector's allocation, without
/// copying; converted back the same way. While it exists its length never
/// changes, so `len` and `capacity` are always positive.
pub struct NonEmptyVec<T> {
    inner: Vec<T>,
}

impl<T> View for NonEmptyVec<T> {
    type V = Seq<T>;

    closed spec fn view(&self) -> Seq<T> {
        self.inner@
    }
}

impl<T> NonEmptyVec<T> {
    /// At least one element. Every constructor establishes it; writes
    /// through `as_mut_slice` cannot change the length, so it holds for
    /// the buffer's whole lifetime.
    pub open spec fn wf(&self) -> bool {
        self@.len() >= 1
    }

    /// Converts a `Vec<T>` into a `NonEmptyVec`, taking over its
    /// allocation; the vector must be non-empty.
    pub fn from_vec(vec: Vec<T>) -> (r: Self)
        requires
            vec@.len() >= 1,
        ensures
            r@ == vec@,
            r.wf(),
    {
        match Self::from_vec_checked(vec) {
            Ok(v) => v,
            Err(_) => vstd::pervasive::unreached(),
        }
    }

    /// Converts a `Vec<T>` into a `NonEmptyVec`, taking over its
    /// allocation. Returns the vector itself, unchanged, if and only if
    /// it is empty.
    pub fn from_vec_checked(vec: Vec<T>) -> (r: Result<Self, Vec<T>>)
        ensures
            r is Ok <==> vec@.len() >= 1,
            r matches Ok(v) ==> v@ == vec@ && v.wf(),
            r matches Err(w) ==> w == vec,
    {
        if vec.is_empty() {
            return Err(vec);
        }
        Ok(NonEmptyVec { inner: vec })
    }

    /// Returns a `&[T]` over the buffer's storage, zero-copy.
    pub fn as_slice(&self) -> (r: &[T])
        ensures
            r@ == self@,
    {
        self.inner.as_slice()
    }

    /// Returns a `&mut [T]` over the buffer's storage, zero-copy; writes
    /// made through it show up in the buffer. The length cannot change
    /// through the slice, so non-emptiness is kept.
    pub fn as_mut_slice(&mut self) -> (r: &mut [T])
        ensures
            r@ == old(self)@,
            final(self)@ == final(r)@,
    {
        self.inner.as_mut_slice()
    }

    /// Returns the number of elements in the buffer, always at least one.
    pub fn len(&self) -> (r: usize)
        requires
            self.wf(),
        ensures
            r == self@.len(),
            r >= 1,
    {
        self.inner.len()
    }

    /// Always returns `false`: the buffer is non-empty by construction,
    /// so this is a provable constant, kept for interface parity.
    pub fn is_empty(&self) -> (r: bool)
        requires
            self.wf(),
        ensures
            r == false,
    {
        false
    }

    /// Returns the number of elements the buffer can hold without
    /// reallocating, always at least its length.
    pub fn capacity(&self) -> (r: usize)
        requires
            self.wf(),
        ensures
            r >= self@.len(),
            r >= 1,
    {
        vec_capacity(&self.inner)
    }

    /// Converts `self` back into a `Vec<T>`, handing over the allocation:
    /// no clone, no copy, the same elements.
    pub fn into_vec(self) -> (r: Vec<T>)
        ensures
            r@ == self@,
    {
        self.inner
    }

    /// Copies `self` into a new `Vec` by cloning every element; the
    /// buffer is left untouched.
    pub fn to_vec(&self) -> (r: Vec<T>) where T: Clone
        ensures
            r@.len() == self@.len(),
            forall|i: int| #![all_triggers] 0 <= i < self@.len() ==> cloned(self@[i], r@[i]),
    {
        self.inner.clone()
    }

    /// Returns the first element of the buffer, through a shared view
    /// over its storage.
    pub fn first(&self) -> (r: &T)
        requires
            self.wf(),
        ensures
            *r == self@[0],
    {
        NonEmptySlice::from_slice(self.inner.as_slice()).first()
    }

    /// Returns the last element of the buffer, through a shared view
    /// over its storage.
    pub fn last(&self) -> (r: &T)
        requires
            self.wf(),
        ensures
            *r == self@[self@.len() - 1],
    {
        NonEmptySlice::from_slice(self.inner.as_slice()).last()
    }

    /// Returns the first element and the rest of the buffer, which may
    /// be empty.
    pub fn split_first(&self) -> (r: (&T, &[T]))
        requires
            self.wf(),
        ensures
            *r.0 == self@[0],
            r.1@ == self@.subrange(1, self@.len() as int),
    {
        NonEmptySlice::from_slice(self.inner.as_slice()).split_first()
    }

    /// Returns the last element and the rest of the buffer, which may be
    /// empty.
    pub fn split_last(&self) -> (r: (&T, &[T]))
        requires
            self.wf(),
        ensures
            *r.0 == self@[self@.len() - 1],
            r.1@ == self@.subrange(0, self@.len() - 1),
    {
        NonEmptySlice::from_slice(self.inner.as_slice()).split_last()
    }

    /// Returns an exclusive reference to the first element of the
    /// buffer; what is last written through it becomes the buffer's
    /// first element.
    pub fn first_mut(&mut self) -> (r: &mut T)
        requires
            old(self).wf(),
        ensures
            *r == old(self)@[0],
            final(self)@ == old(self)@.update(0, *final(r)),
    {
        self.inner.as_mut_slice().first_mut().unwrap()
    }

    /// Returns an exclusive reference to the last element of the buffer;
    /// what is last written through it becomes the buffer's last
    /// element.
    pub fn last_mut(&mut self) -> (r: &mut T)
        requires
            old(self).wf(),
        ensures
            *r == old(self)@[old(self)@.len() - 1],
            final(self)@ == old(self)@.update(old(self)@.len() - 1, *final(r)),
    {
        self.inner.as_mut_slice().last_mut().unwrap()
    }

    /// Returns exclusive references to the first element and to the rest
    /// of the buffer; writes through either land in the buffer.
    pub fn split_first_mut(&mut self) -> (r: (&mut T, &mut [T]))
        requires
            old(self).wf(),
        ensures
            *r.0 == old(self)@[0],
            r.1@ == old(self)@.subrange(1, old(self)@.len() as int),
            final(self)@ == seq![*final(r.0)] + final(r.1)@,
    {
        let (head, rest) = self.inner.as_mut_slice().split_at_mut(1);
        let e = head.first_mut().unwrap();
        proof {
            assert(old(self)@.subrange(0, 1).update(0, *final(e)) =~= seq![*final(e)]);
        }
        (e, rest)
    }

    /// Returns exclusive references to the last element and to the rest
    /// of the buffer; writes through either land in the buffer.
    pub fn split_last_mut(&mut self) -> (r: (&mut T, &mut [T]))
        requires
            old(self).wf(),
        ensures
            *r.0 == old(self)@[old(self)@.len() - 1],
            r.1@ == old(self)@.subrange(0, old(self)@.len() - 1),
            final(self)@ == final(r.1)@ + seq![*final(r.0)],
    {
        let s = self.inner.as_mut_slice();
        let mid = s.len() - 1;
        let (rest, tail) = s.split_at_mut(mid);
        let e = tail.first_mut().unwrap();
        proof {
            assert(old(self)@.subrange(old(self)@.len() - 1, old(self)@.len() as int).update(
                0,
                *final(e),
            ) =~= seq![*final(e)]);
        }
        (e, rest)
    }
}

impl<T: Clone> Clone for NonEmptyVec<T> {
    /// Duplicates the buffer into a fresh allocation by cloning every
    /// element; the result never aliases the source.
    fn clone(&self) -> (r: Self)
        ensures
            r@.len() == self@.len(),
            forall|i: int| #![all_triggers] 0 <= i < self@.len() ==> cloned(self@[i], r@[i]),
    {
        NonEmptyVec { inner: self.inner.clone() }
    }
}

/// Round trip: feeding a non-empty vector through the owning buffer and
/// back preserves the element sequence, for every such vector. Neither
/// direction clones or copies an element (`T` need not be `Clone`).
pub fn round_trip_through_buffer<T>(vec: Vec<T>) -> (r: Vec<T>)
    requires
        vec@.len() >= 1,
    ensures
        r@ == vec@,
{
    NonEmptyVec::from_vec(vec).into_vec()
}

/// Writes made through an exclusive view of the buffer's storage are
/// visible in the buffer afterwards: setting the first element to `x`
/// and the last to `y` through such a view leaves the buffer's contents
/// equal to themselves with exactly those positions updated.
pub fn write_edges_through_buffer<T>(buf: &mut NonEmptyVec<T>, x: T, y: T)
    requires
        old(buf).wf(),
    ensures
        final(buf)@ == old(buf)@.update(0, x).update(old(buf)@.len() - 1, y),
        final(buf).wf(),
{
    let mut view = crate::slice::NonEmptyMutSlice::from_slice(buf.as_mut_slice());
    *view.first_mut() = x;
    *view.last_mut() = y;
}

} // verus!
