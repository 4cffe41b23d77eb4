use vstd::prelude::*;

verus! {

/// The same iterator-shaped trait, with the item as a type parameter
/// instead of an associated type.
pub trait ProtoIterator<I> {
    spec fn wants(&self) -> bool;

    fn next(&mut self) -> Option<I>
        requires
            old(self).wants(),
    ;
}

/// A cursor that walks a borrowed vector round and round.
pub struct RingPointer<'a> {
    index: usize,
    coll: &'a Vec<u32>,
}

impl<'a> RingPointer<'a> {
    /// The borrowed collection.
    pub closed spec fn spec_coll(&self) -> Seq<u32> {
        self.coll@
    }

    /// Where the cursor stands.
    pub closed spec fn spec_index(&self) -> int {
        self.index as int
    }

    /// A cursor standing at the first element.
    pub fn new(coll: &'a Vec<u32>) -> (r: Self)
        ensures
            r.spec_coll() == coll@,
            r.spec_index() == 0,
    {
        Self { index: 0, coll }
    }
}

impl<'a> ProtoIterator<u32> for RingPointer<'a> {
    /// `next` asks only that the cursor stand inside the collection.
    open spec fn wants(&self) -> bool {
        0 <= self.spec_index() < self.spec_coll().len() || (self.spec_coll().len() == 0
            && self.spec_index() == 0)
    }

    /// As in the associated-type version: the element under the cursor,
    /// and the cursor wraps past the end.
    fn next(&mut self) -> (r: Option<u32>)
        ensures
            final(self).spec_coll() == old(self).spec_coll(),
            old(self).spec_coll().len() == 0 ==> r is None && *final(self) == *old(self),
            old(self).spec_coll().len() > 0 ==> {
                &&& r == Some(old(self).spec_coll()[old(self).spec_index()])
                &&& final(self).spec_index() == (if old(self).spec_index() + 1 == old(
                    self,
                ).spec_coll().len() {
                    0int
                } else {
                    old(self).spec_index() + 1
                })
            },
            final(self).wants(),
    {
        if self.coll.is_empty() {
            return None;
        }

        let n = self.coll.len();
        let el = Some(self.coll[self.index]);

        self.index += 1;
        if self.index == n {
            self.index = 0;
        }

        el
    }
}

} // verus!
