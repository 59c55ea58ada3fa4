use vstd::prelude::*;

verus! {

/// A view over a region of elements that is checked out from its owner for
/// the view's lifetime. Every access names its index, and what is written
/// through the view is what the owner finds in the region afterwards.
#[derive(Debug)]
pub struct UnsafeSlice<'a, T> {
    /// The region that is checked out.
    pub data: &'a mut [T],
}

impl<'a, T> UnsafeSlice<'a, T> {
    /// The elements currently seen through the view.
    pub open spec fn view(&self) -> Seq<T> {
        self.data@
    }

    /// Checks out `source`: the view starts with its elements, and the
    /// region ends with what the view ends with.
    pub fn from_slice(source: &'a mut [T]) -> (r: Self)
        ensures
            r@ == old(source)@,
            final(source)@ == final(r.data)@,
    {
        UnsafeSlice { data: source }
    }

    /// Number of elements in the view.
    pub fn len(&self) -> (r: usize)
        ensures
            r == self@.len(),
    {
        self.data.len()
    }

    /// The whole region, for writing.
    pub fn as_mut_slice(&mut self) -> (r: &mut [T])
        ensures
            r@ == old(self)@,
            final(self)@ == final(r)@,
            final(final(self).data)@ == final(old(self).data)@,
    {
        &mut *self.data
    }

    /// The whole region, for reading.
    pub fn as_slice(&self) -> (r: &[T])
        ensures
            r@ == self@,
    {
        &*self.data
    }

    /// Splits the view at `mid` into two views over disjoint parts of the
    /// region, which can be handed to different workers: the first holds the
    /// elements before `mid`, the second the rest, and the region ends with
    /// what the two end with, in that order.
    pub fn split_at(self, mid: usize) -> (r: (UnsafeSlice<'a, T>, UnsafeSlice<'a, T>))
        requires
            mid <= self@.len(),
        ensures
            r.0@ == self@.subrange(0, mid as int),
            r.1@ == self@.subrange(mid as int, self@.len() as int),
            final(self.data)@ == final(r.0.data)@ + final(r.1.data)@,
    {
        let (a, b) = self.data.split_at_mut(mid);
        (UnsafeSlice { data: a }, UnsafeSlice { data: b })
    }

    /// The element at `index`.
    pub fn get(&self, index: usize) -> (r: &T)
        requires
            index < self@.len(),
        ensures
            *r == self@[index as int],
    {
        &self.data[index]
    }

    /// The element at `index`, for writing; the other elements stay as they are.
    pub fn get_mut(&mut self, index: usize) -> (r: &mut T)
        requires
            index < old(self)@.len(),
        ensures
            *r == old(self)@[index as int],
            final(self)@ == old(self)@.update(index as int, *final(r)),
            final(final(self).data)@ == final(old(self).data)@,
    {
        &mut self.data[index]
    }
}

} // verus!
