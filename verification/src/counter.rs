//! The counter: one visit read, incremented and written as a unit.

use crate::cache::CountCache;
use crate::error::{CounterError, StoreError};
use crate::model::{
    after_visit, mirrors, no_counts, valid_name, visits_of, well_formed, Counts, MAX_COUNT,
};
use crate::record::VisitorRecord;
use crate::store::PersistentStore;
use vstd::prelude::*;

verus! {

/// What a lookup's outcome makes of a visit: the failure that stops it, or
/// the count before the visit and the count to write.
pub open spec fn planned(lookup: Result<Option<VisitorRecord>, StoreError>) -> Result<
    (u64, u64),
    CounterError,
> {
    match lookup {
        Err(cause) => Err(CounterError { cause }),
        Ok(None) => Ok((0u64, 1u64)),
        Ok(Some(record)) => if record.count < MAX_COUNT {
            Ok((record.count, (record.count + 1) as u64))
        } else {
            Err(CounterError { cause: StoreError::Constraint })
        },
    }
}

/// What a write's outcome makes of a planned visit: the planned counts once
/// they are stored, the failure of the write otherwise.
pub open spec fn settled(plan: (u64, u64), written: Result<(), StoreError>) -> Result<
    (u64, u64),
    CounterError,
> {
    match written {
        Ok(()) => Ok(plan),
        Err(cause) => Err(CounterError { cause }),
    }
}

/// Decides a visit from the outcome of the lookup. A failed lookup fails the
/// visit with the same cause; it is never taken for a first visit. A name
/// without a record has visited zero times before. A count that cannot grow
/// any further fails the visit, since the next count could not be stored.
pub fn plan_visit(lookup: Result<Option<VisitorRecord>, StoreError>) -> (plan: Result<
    (u64, u64),
    CounterError,
>)
    ensures
        plan == planned(lookup),
{
    match lookup {
        Err(cause) => Err(CounterError { cause }),
        Ok(None) => Ok((0, 1)),
        Ok(Some(record)) => {
            if record.count < MAX_COUNT {
                Ok((record.count, record.count + 1))
            } else {
                Err(CounterError { cause: StoreError::Constraint })
            }
        },
    }
}

/// Concludes a planned visit from the outcome of the write. The counts are
/// handed out only when they have been stored; a failed write fails the
/// visit with the same cause.
pub fn settle_visit(plan: (u64, u64), written: Result<(), StoreError>) -> (visit: Result<
    (u64, u64),
    CounterError,
>)
    ensures
        visit == settled(plan, written),
{
    match written {
        Ok(()) => Ok(plan),
        Err(cause) => Err(CounterError { cause }),
    }
}

/// Counts visits per name. The counter owns its store and its cache, and
/// every visit goes through `record_visit`, which holds both exclusively
/// from the read to the write.
pub struct VisitorCounter {
    store: PersistentStore,
    cache: CountCache,
}

impl VisitorCounter {
    /// The authoritative counts: what the store holds.
    pub closed spec fn counts(&self) -> Counts {
        self.store@
    }

    /// The counts that the cache mirrors.
    pub closed spec fn cached(&self) -> Counts {
        self.cache@
    }

    /// Whether the table of the store has been created.
    pub closed spec fn ready(&self) -> bool {
        self.store.ready()
    }

    /// The store holds valid records only, and the cache holds no count that
    /// differs from the store's.
    pub open spec fn wf(&self) -> bool {
        well_formed(self.counts()) && mirrors(self.cached(), self.counts())
    }

    /// The causes with which a visit of `name` can fail. `Constraint` is the
    /// counter's own refusal: it is the cause of every failure on an empty
    /// name, and of no failure but on an empty name or on a count that
    /// cannot grow. A valid name on a store without its table fails with the
    /// database's cause.
    pub open spec fn may_fail_with(&self, name: Seq<char>, cause: StoreError) -> bool {
        &&& !valid_name(name) ==> cause is Constraint
        &&& valid_name(name) && !self.ready() ==> cause is Database
        &&& cause is Constraint ==> !valid_name(name) || visits_of(self.counts(), name)
            == MAX_COUNT
    }

    /// A counter over `store`, with an empty cache.
    pub fn new(store: PersistentStore) -> (counter: VisitorCounter)
        requires
            store.wf(),
        ensures
            counter.wf(),
            counter.counts() == store@,
            counter.cached() == no_counts(),
            counter.ready() == store.ready(),
    {
        VisitorCounter { store, cache: CountCache::new() }
    }

    /// The store behind the counter, for reading.
    pub fn store(&self) -> (store: &PersistentStore)
        ensures
            store@ == self.counts(),
            store.ready() == self.ready(),
    {
        &self.store
    }

    /// The count of `name` as the cache has it. A count found here is the
    /// count in the store; a name not found here may still have a record.
    pub fn cached_count(&self, name: &str) -> (found: Option<u64>)
        ensures
            match found {
                Some(count) => self.cached().contains_key(name@) && self.cached()[name@]
                    == count as int,
                None => !self.cached().contains_key(name@),
            },
            self.wf() ==> (found matches Some(count) ==> self.counts().contains_key(name@)
                && self.counts()[name@] == count as int),
    {
        self.cache.get(name)
    }

    /// Records one visit of `name` and returns the count before the visit
    /// and the count after it. The new count is written to the store and
    /// then mirrored in the cache. A visit that fails leaves store and cache
    /// as they were.
    ///
    /// An empty name fails with `Constraint` before the store is asked, and
    /// so does, once it has been read, a count that cannot grow. Any other
    /// failure is the store's, with its cause.
    pub fn record_visit(&mut self, name: &str) -> (visit: Result<(u64, u64), CounterError>)
        requires
            old(self).wf(),
        ensures
            final(self).wf(),
            final(self).ready() == old(self).ready(),
            match visit {
                Ok((previous, current)) => {
                    &&& previous as int == visits_of(old(self).counts(), name@)
                    &&& current as int == previous + 1
                    &&& final(self).counts() == after_visit(old(self).counts(), name@)
                    &&& final(self).cached() == old(self).cached().insert(name@, current as int)
                },
                Err(e) => {
                    &&& final(self).counts() == old(self).counts()
                    &&& final(self).cached() == old(self).cached()
                },
            },
            visit is Ok ==> valid_name(name@) && old(self).ready() && visits_of(
                old(self).counts(),
                name@,
            ) < MAX_COUNT,
            visit matches Err(e) ==> old(self).may_fail_with(name@, e.cause),
    {
        if name.is_empty() {
            return Err(CounterError { cause: StoreError::Constraint });
        }
        let plan = match plan_visit(self.store.get(name)) {
            Ok(plan) => plan,
            Err(e) => {
                return Err(e);
            },
        };
        let visit = settle_visit(plan, self.store.upsert(name, plan.1));
        if visit.is_ok() {
            self.cache.put(name, plan.1);
        }
        visit
    }
}

} // verus!
