//! A source of unique serial ids, used to key the background entities.

use vstd::prelude::*;

verus! {

/// Hands out ids in increasing order, so no id is ever handed out twice.
pub struct SerialNamer {
    pub next_id: u64,
}

impl SerialNamer {
    pub fn new() -> (r: SerialNamer)
        ensures
            r.next_id == 0,
    {
        SerialNamer { next_id: 0 }
    }

    /// The next fresh id. Distinct calls return distinct ids, because the
    /// counter only grows.
    pub fn gen_name(&mut self) -> (r: u64)
        requires
            old(self).next_id < u64::MAX,
        ensures
            r == old(self).next_id,
            final(self).next_id == old(self).next_id + 1,
    {
        let id = self.next_id;
        self.next_id = self.next_id + 1;
        id
    }
}

} // verus!
