use vstd::prelude::*;
use core::fmt::Debug;

verus! {

/// The iterator-shaped trait once more, combined with a generic element
/// type.
pub trait ProtoIterator {
    type Item;

    spec fn wants(&self) -> bool;

    fn next(&mut self) -> Option<Self::Item>
        requires
            old(self).wants(),
    ;
}

/// A cursor that walks a borrowed vector of any printable element round
/// and round, handing out borrows.
pub struct RingPointer<'a, T: Debug> {
    index: usize,
    coll: &'a Vec<T>,
}

impl<'a, T: Debug> RingPointer<'a, T> {
    /// The borrowed collection.
    pub closed spec fn spec_coll(&self) -> Seq<T> {
        self.coll@
    }

    /// Where the cursor stands.
    pub closed spec fn spec_index(&self) -> int {
        self.index as int
    }

    /// A cursor standing at the first element.
    pub fn new(coll: &'a Vec<T>) -> (r: Self)
        ensures
            r.spec_coll() == coll@,
            r.spec_index() == 0,
    {
        Self { index: 0, coll }
    }
}

impl<'a, T: Debug> ProtoIterator for RingPointer<'a, T> {
    type Item = &'a T;

    /// `next` asks only that the cursor stand inside the collection.
    open spec fn wants(&self) -> bool {
        0 <= self.spec_index() < self.spec_coll().len() || (self.spec_coll().len() == 0
            && self.spec_index() == 0)
    }

    /// The element under the cursor, by reference; the cursor wraps past
    /// the end.
    fn next(&mut self) -> (r: Option<&'a T>)
        ensures
            final(self).spec_coll() == old(self).spec_coll(),
            old(self).spec_coll().len() == 0 ==> r is None && *final(self) == *old(self),
            old(self).spec_coll().len() > 0 ==> {
                &&& r matches Some(e) && *e == old(self).spec_coll()[old(self).spec_index()]
                &&& final(self).spec_index() == (if old(self).spec_index() + 1 == old(
                    self,
                ).spec_coll().len() {
                    0int
                } else {
                    old(self).spec_index() + 1
                })
            },
            final(self).wants(),
    {
        if self.coll.is_empty() {
            return None;
        }

        let n = self.coll.len();
        let el = Some(&self.coll[self.index]);

        self.index += 1;
        if self.index == n {
            self.index = 0;
        }

        el
    }
}

} // verus!
