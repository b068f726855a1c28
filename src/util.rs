use vstd::prelude::*;

verus! {

/// Hands out the items of a slice in order, starting over after the last.
pub struct CyclicIterator<'a, T> {
    items: &'a [T],
    index: usize,
}

impl<'a, T> CyclicIterator<'a, T> {
    pub closed spec fn items(&self) -> Seq<T> {
        self.items@
    }

    pub closed spec fn index(&self) -> nat {
        self.index as nat
    }

    pub closed spec fn wf(&self) -> bool {
        self.items@.len() == 0 || self.index < self.items@.len()
    }

    pub fn new(items: &'a [T]) -> (r: Self)
        ensures
            r.wf(),
            r.items() == items@,
            r.index() == 0,
    {
        CyclicIterator { items, index: 0 }
    }

    /// The item at the current index, then the index moves on by one,
    /// wrapping around; `None` for an empty slice.
    pub fn next(&mut self) -> (r: Option<&'a T>)
        requires
            old(self).wf(),
        ensures
            final(self).wf(),
            final(self).items() == old(self).items(),
            old(self).items().len() == 0 ==> r.is_none() && final(self).index() == old(self).index(),
            old(self).items().len() > 0 ==> r == Some(&old(self).items()[old(self).index() as int])
                && final(self).index() == (old(self).index() + 1) % old(self).items().len(),
    {
        if self.items.len() == 0 {
            None
        } else {
            let item = &self.items[self.index];
            self.index = (self.index + 1) % self.items.len();
            Some(item)
        }
    }
}

} // verus!
