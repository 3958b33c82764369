//! Allocation of GPU object names for one class of objects.
//!
//! A GL context hands out integer names per object class and lets each name
//! be deleted once. This model allocates names in increasing order starting
//! at 1, so a handle of 0 always means "not yet created".

use vstd::prelude::*;

verus! {

/// The live objects of one class, keyed by name.
pub struct Store<R> {
    slots: Vec<Option<R>>,
}

impl<R> View for Store<R> {
    type V = Map<u32, R>;

    /// The live objects: name 0 is never live, and a freed name never
    /// reappears.
    closed spec fn view(&self) -> Map<u32, R> {
        Map::new(
            |id: u32| 1 <= id && id <= self.slots@.len() && self.slots@[id - 1] is Some,
            |id: u32| self.slots@[id - 1]->Some_0,
        )
    }
}

impl<R> Store<R> {
    /// The name the next allocation will return.
    pub closed spec fn next_name(&self) -> int {
        self.slots@.len() as int + 1
    }

    pub fn new() -> (s: Self)
        ensures
            s@ == Map::<u32, R>::empty(),
            s.next_name() == 1,
    {
        let s = Store { slots: Vec::new() };
        proof {
            assert(s@ =~= Map::<u32, R>::empty());
        }
        s
    }

    /// Allocates a fresh name for `r`.
    pub fn gen(&mut self, r: R) -> (id: u32)
        requires
            old(self).next_name() <= u32::MAX,
        ensures
            id == old(self).next_name(),
            id != 0,
            !old(self)@.contains_key(id),
            final(self)@ == old(self)@.insert(id, r),
            final(self).next_name() == old(self).next_name() + 1,
    {
        let id = (self.slots.len() + 1) as u32;
        self.slots.push(Some(r));
        proof {
            assert(self@ =~= old(self)@.insert(id, r));
        }
        id
    }

    /// Looks a name up; a name that was never allocated, or was freed, has
    /// no object.
    pub fn get(&self, id: u32) -> (r: Option<&R>)
        ensures
            match r {
                Some(v) => self@.contains_key(id) && *v == self@[id],
                None => !self@.contains_key(id),
            },
    {
        if 1 <= id && id as usize <= self.slots.len() {
            match &self.slots[id as usize - 1] {
                Some(v) => Some(v),
                None => None,
            }
        } else {
            None
        }
    }

    /// Frees a name. Freeing a name that is not live changes nothing and
    /// reports `false`.
    pub fn free(&mut self, id: u32) -> (was_live: bool)
        ensures
            was_live == old(self)@.contains_key(id),
            final(self)@ == old(self)@.remove(id),
            final(self).next_name() == old(self).next_name(),
    {
        if 1 <= id && id as usize <= self.slots.len() {
            let i = id as usize - 1;
            let was = self.slots[i].is_some();
            self.slots.set(i, None);
            proof {
                assert(self@ =~= old(self)@.remove(id));
            }
            was
        } else {
            proof {
                assert(self@ =~= old(self)@.remove(id));
            }
            false
        }
    }
}

} // verus!
