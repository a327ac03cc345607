//! The in-process mirror of counts that the counter has written.

use crate::model::{no_counts, Counts};
use vstd::hash_map::StringHashMap;
use vstd::prelude::*;

verus! {

/// A process-local mirror of visit counts. It is never the source of truth:
/// it may lack a name that the store has, and it is overwritten on every
/// successful write to the store.
pub struct CountCache {
    entries: StringHashMap<u64>,
}

impl CountCache {
    /// The mirrored counts by name.
    pub closed spec fn view(&self) -> Counts {
        Map::new(
            |name: Seq<char>| self.entries@.contains_key(name),
            |name: Seq<char>| self.entries@[name] as int,
        )
    }

    /// A cache that mirrors nothing yet.
    pub fn new() -> (cache: CountCache)
        ensures
            cache@ == no_counts(),
    {
        let cache = CountCache { entries: StringHashMap::new() };
        assert(cache@ =~= no_counts());
        cache
    }

    /// The mirrored count of `name`, if the cache has one.
    pub fn get(&self, name: &str) -> (found: Option<u64>)
        ensures
            match found {
                Some(count) => self@.contains_key(name@) && self@[name@] == count as int,
                None => !self@.contains_key(name@),
            },
    {
        match self.entries.get(name) {
            Some(count) => Some(*count),
            None => None,
        }
    }

    /// Mirrors `count` under `name`, in place of any count mirrored before.
    pub fn put(&mut self, name: &str, count: u64)
        ensures
            final(self)@ == old(self)@.insert(name@, count as int),
    {
        self.entries.insert(name.to_owned(), count);
        assert(self@ =~= old(self)@.insert(name@, count as int));
    }
}

} // verus!
