//! One-pass sequences whose length is known before any element is taken.

use vstd::prelude::*;

verus! {

/// A sequence that yields its elements once, in order, and knows at every
/// moment how many are still to come.
pub trait ExactSizeSource {
    /// What the source yields.
    type Item;

    /// The elements that have not been taken yet, next one first.
    spec fn pending(&self) -> Seq<Self::Item>;

    /// The number of elements still to come. Takes none of them.
    fn len(&self) -> (n: usize)
        ensures
            n == self.pending().len(),
    ;

    /// Takes the next element, or returns `None` and leaves the source as
    /// it is when none is left.
    fn next(&mut self) -> (item: Option<Self::Item>)
        ensures
            old(self).pending().len() == 0 ==> item is None && final(self).pending()
                == old(self).pending(),
            old(self).pending().len() > 0 ==> item == Some(old(self).pending()[0])
                && final(self).pending() == old(self).pending().skip(1),
    ;
}

/// A one-pass reader over a borrowed slice. The slice itself is never
/// changed and stays usable once the cursor is gone.
pub struct SliceCursor<'a, T> {
    items: &'a [T],
    position: usize,
}

impl<'a, T> Clone for SliceCursor<'a, T> {
    fn clone(&self) -> (copy: Self)
        ensures
            copy == *self,
    {
        *self
    }
}

impl<'a, T> Copy for SliceCursor<'a, T> {

}

impl<'a, T> SliceCursor<'a, T> {
    #[verifier::type_invariant]
    spec fn in_bounds(self) -> bool {
        self.position <= self.items@.len()
    }

    /// A cursor at the start of `items`: every element of the slice is
    /// pending, in the order of the slice.
    pub fn new(items: &'a [T]) -> (cursor: Self)
        ensures
            cursor.pending() == Seq::new(items@.len(), |i: int| &items@[i]),
    {
        SliceCursor { items, position: 0 }
    }
}

impl<'a, T> ExactSizeSource for SliceCursor<'a, T> {
    type Item = &'a T;

    closed spec fn pending(&self) -> Seq<&'a T> {
        Seq::new(
            (self.items@.len() - self.position) as nat,
            |i: int| &self.items@[self.position + i],
        )
    }

    fn len(&self) -> (n: usize) {
        proof {
            use_type_invariant(self);
        }
        self.items.len() - self.position
    }

    fn next(&mut self) -> (item: Option<&'a T>) {
        proof {
            use_type_invariant(&*self);
        }
        if self.position < self.items.len() {
            let item = &self.items[self.position];
            self.position = self.position + 1;
            assert(final(self).pending() =~= old(self).pending().skip(1));
            Some(item)
        } else {
            None
        }
    }
}

} // verus!
