use vstd::prelude::*;

use vstd::slice::slice_subrange;

use crate::index::Index;

verus! {

/// A contiguous view: a borrowed run of same-type elements. `elems` is the
/// mathematical model that every slicing contract in this crate speaks of.
pub trait AsSlice {
    /// The element type of the view
    type Element;

    /// The elements the view currently observes, in order
    spec fn elems(&self) -> Seq<Self::Element>;

    /// Borrow the view's elements as a native slice
    fn as_slice(&self) -> (r: &[Self::Element])
        ensures
            r@ == self.elems(),
    ;
}

impl<'a, T> AsSlice for &'a [T] {
    type Element = T;

    open spec fn elems(&self) -> Seq<T> {
        (*self)@
    }

    fn as_slice(&self) -> &[T] {
        self
    }
}

impl<'a, T> AsSlice for &'a mut [T] {
    type Element = T;

    open spec fn elems(&self) -> Seq<T> {
        (*self)@
    }

    fn as_slice(&self) -> &[T] {
        &**self
    }
}

/// The elements left after shrinking `s` to `length` elements: the prefix of
/// `length` elements if that is a genuine shrink, all of `s` otherwise.
pub open spec fn truncated<T>(s: Seq<T>, length: nat) -> Seq<T> {
    if length < s.len() {
        s.subrange(0, length as int)
    } else {
        s
    }
}

/// `slice[start..end]` but by value
pub trait IntoSlice<I: Index>: AsSlice {
    /// The result of the slicing operation: a contiguous view of the same
    /// element type that can be truncated in place. Both realizations below
    /// choose the view kind itself, so a sliced view supports the whole
    /// capability set again and can be sliced repeatedly.
    type Slice: AsSlice<Element = <Self as AsSlice>::Element> + Truncate<I>;

    /// `slice[start..end]` but by value
    fn into_slice(self, start: I, length: I) -> (r: Self::Slice)
        requires
            start.as_index() + length.as_index() <= self.elems().len(),
        ensures
            r.elems() == self.elems().subrange(
                start.as_index() as int,
                (start.as_index() + length.as_index()) as int,
            ),
            r.elems().len() == length.as_index(),
    ;
}

impl<'a, T, I> IntoSlice<I> for &'a [T] where I: Index {
    type Slice = &'a [T];

    fn into_slice(self, start: I, length: I) -> Self::Slice {
        proof {
            vstd::slice::axiom_spec_len::<T>(self);
        }
        let start = start.as_usize();
        let end = start + length.as_usize();
        slice_subrange(self, start, end)
    }
}

impl<'a, T, I> IntoSlice<I> for &'a mut [T] where I: Index {
    type Slice = &'a mut [T];

    fn into_slice(self, start: I, length: I) -> (r: Self::Slice)
        ensures
            final(self)@ == old(self)@.subrange(0, start.as_index() as int) + final(r)@ + old(
                self,
            )@.subrange(
                (start.as_index() + length.as_index()) as int,
                old(self)@.len() as int,
            ),
    {
        let start = start.as_usize();
        let length = length.as_usize();
        let (_, tail) = <[T]>::split_at_mut(self, start);
        let (mid, _) = <[T]>::split_at_mut(tail, length);
        mid
    }
}

/// `slice[start..]` but by value
pub trait IntoSliceFrom<I: Index>: AsSlice {
    /// The result of the slicing operation: a contiguous view of the same
    /// element type. Deliberately, and unlike `Slice` and `SliceTo`, a
    /// suffix view is not required to support in-place truncation: truncating
    /// it yields nothing that taking a prefix of it does not already yield.
    type SliceFrom: AsSlice<Element = <Self as AsSlice>::Element>;

    /// `slice[start..]` but by value
    fn into_slice_from(self, start: I) -> (r: Self::SliceFrom)
        requires
            start.as_index() <= self.elems().len(),
        ensures
            r.elems() == self.elems().subrange(start.as_index() as int, self.elems().len() as int),
            r.elems().len() == self.elems().len() - start.as_index(),
    ;
}

impl<'a, T, I> IntoSliceFrom<I> for &'a [T] where I: Index {
    type SliceFrom = &'a [T];

    fn into_slice_from(self, start: I) -> Self::SliceFrom {
        let start = start.as_usize();
        slice_subrange(self, start, self.len())
    }
}

impl<'a, T, I> IntoSliceFrom<I> for &'a mut [T] where I: Index {
    type SliceFrom = &'a mut [T];

    fn into_slice_from(self, start: I) -> (r: Self::SliceFrom)
        ensures
            final(self)@ == old(self)@.subrange(0, start.as_index() as int) + final(r)@,
    {
        let (_, tail) = <[T]>::split_at_mut(self, start.as_usize());
        tail
    }
}

/// `slice[..end]` but by value
pub trait IntoSliceTo<I: Index>: AsSlice {
    /// The result of the slicing operation: a contiguous view of the same
    /// element type that can be truncated in place. Both realizations below
    /// choose the view kind itself, so a sliced view supports the whole
    /// capability set again and can be sliced repeatedly.
    type SliceTo: AsSlice<Element = <Self as AsSlice>::Element> + Truncate<I>;

    /// `slice[..end]` but by value
    fn into_slice_to(self, end: I) -> (r: Self::SliceTo)
        requires
            end.as_index() <= self.elems().len(),
        ensures
            r.elems() == self.elems().subrange(0, end.as_index() as int),
            r.elems().len() == end.as_index(),
    ;
}

impl<'a, T, I> IntoSliceTo<I> for &'a [T] where I: Index {
    type SliceTo = &'a [T];

    fn into_slice_to(self, end: I) -> Self::SliceTo {
        let end = end.as_usize();
        slice_subrange(self, 0, end)
    }
}

impl<'a, T, I> IntoSliceTo<I> for &'a mut [T] where I: Index {
    type SliceTo = &'a mut [T];

    fn into_slice_to(self, end: I) -> (r: Self::SliceTo)
        ensures
            final(self)@ == final(r)@ + old(self)@.subrange(
                end.as_index() as int,
                old(self)@.len() as int,
            ),
    {
        let (head, _) = <[T]>::split_at_mut(self, end.as_usize());
        head
    }
}

/// Truncate a slice in place
pub trait Truncate<I: Index>: AsSlice {
    /// Shortens the slice to the requested `length`
    ///
    /// This is a no-operation if `length` > `self.len()`
    fn truncate(&mut self, length: I)
        ensures
            final(self).elems() == truncated(old(self).elems(), length.as_index()),
            length.as_index() >= old(self).elems().len() ==> final(self).elems() == old(
                self,
            ).elems(),
    ;
}

impl<'a, T, I> Truncate<I> for &'a [T] where I: Index {
    fn truncate(&mut self, length: I) {
        let end = length.as_usize();
        if end < self.len() {
            *self = slice_subrange(*self, 0, end);
        }
    }
}

impl<'a, T, I> Truncate<I> for &'a mut [T] where I: Index {
    fn truncate(&mut self, length: I)
        ensures
            length.as_index() < old(self)@.len() ==> final(*old(self))@ == final(*final(self))@
                + old(self)@.subrange(length.as_index() as int, old(self)@.len() as int),
    {
        let end = length.as_usize();
        if end < self.len() {
            let mut whole: &mut [T] = &mut [];
            core::mem::swap(self, &mut whole);
            let (head, _) = <[T]>::split_at_mut(whole, end);
            *self = head;
        }
    }
}

} // verus!
