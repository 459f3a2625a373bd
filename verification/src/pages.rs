use vstd::prelude::*;

verus! {

/// A lookup table for font atlas pages (and similar sparse indexings): index
/// 0 is always populated with `first`; higher indices hold explicitly added
/// entries, and adding at index `k` implicitly reserves indices below it as
/// absent.
pub struct Pages<T> {
    pub first: T,
    pub pages: Vec<Option<T>>,
}

impl<T> Pages<T> {
    /// The entry at `idx`: the first page at 0, an added entry where one
    /// exists, absent everywhere else.
    pub open spec fn spec_get(&self, idx: int) -> Option<T> {
        if idx == 0 {
            Some(self.first)
        } else if 1 <= idx <= self.pages@.len() {
            self.pages@[idx - 1]
        } else {
            None
        }
    }

    pub fn new(first: T) -> (p: Pages<T>)
        ensures
            p.first == first,
            p.pages@.len() == 0,
    {
        Pages { first, pages: Vec::new() }
    }

    /// Stores `value` at index `idx`.  Index 0 is the first page and cannot
    /// be taken; indices between the old end of the table and `idx` become
    /// explicitly absent.
    pub fn add(&mut self, value: T, idx: usize)
        requires
            idx > 0,
        ensures
            final(self).first == old(self).first,
            final(self).pages@.len() == (if old(self).pages@.len() >= idx {
                old(self).pages@.len() as int
            } else {
                idx as int
            }),
            final(self).spec_get(idx as int) == Some(value),
            forall|j: int|
                0 <= j < final(self).pages@.len() && j != idx - 1 ==> final(self).pages@[j] == (
                if j < old(self).pages@.len() {
                    old(self).pages@[j]
                } else {
                    None
                }),
    {
        self.resize_to(idx);
        self.pages[idx - 1] = Some(value);
    }

    fn resize_to(&mut self, new_len: usize)
        ensures
            final(self).first == old(self).first,
            final(self).pages@.len() == (if old(self).pages@.len() >= new_len {
                old(self).pages@.len() as int
            } else {
                new_len as int
            }),
            forall|j: int|
                0 <= j < final(self).pages@.len() ==> final(self).pages@[j] == (if j < old(
                    self,
                ).pages@.len() {
                    old(self).pages@[j]
                } else {
                    None
                }),
    {
        while self.pages.len() < new_len
            invariant
                self.first == old(self).first,
                self.pages@.len() >= old(self).pages@.len(),
                old(self).pages@.len() < new_len ==> self.pages@.len() <= new_len,
                old(self).pages@.len() >= new_len ==> self.pages@.len() == old(self).pages@.len(),
                forall|j: int|
                    0 <= j < self.pages@.len() ==> self.pages@[j] == (if j < old(
                        self,
                    ).pages@.len() {
                        old(self).pages@[j]
                    } else {
                        None
                    }),
            decreases new_len - self.pages@.len(),
        {
            self.pages.push(None);
        }
    }

    /// The entry at `idx`: always the first page at 0, only explicitly added
    /// entries elsewhere.
    pub fn get(&self, idx: usize) -> (r: Option<&T>)
        ensures
            match r {
                Some(v) => self.spec_get(idx as int) == Some(*v),
                None => self.spec_get(idx as int) is None,
            },
    {
        if idx == 0 {
            Some(&self.first)
        } else if idx - 1 < self.pages.len() {
            self.pages[idx - 1].as_ref()
        } else {
            None
        }
    }

    /// The entry at `idx`, or the first page where it is absent.
    pub fn get_or_first(&self, idx: usize) -> (r: &T)
        ensures
            *r == (match self.spec_get(idx as int) {
                Some(v) => v,
                None => self.first,
            }),
    {
        match self.get(idx) {
            Some(v) => v,
            None => &self.first,
        }
    }

    pub fn first(&self) -> (r: &T)
        ensures
            *r == self.first,
    {
        &self.first
    }

    /// How many indices past the first page the table spans.
    pub fn len(&self) -> (n: usize)
        ensures
            n == self.pages@.len(),
    {
        self.pages.len()
    }
}

} // verus!
