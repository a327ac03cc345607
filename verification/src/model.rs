//! The mathematical model of visit counting: a map from name to count, and
//! what one visit, or a run of visits, does to it.

use vstd::prelude::*;

verus! {

/// Visit counts by visitor name. A name without an entry has never visited.
pub type Counts = Map<Seq<char>, int>;

/// The largest count a record can hold: the largest value of an SQLite
/// `INTEGER` column.
pub const MAX_COUNT: u64 = 0x7fff_ffff_ffff_ffff;

/// The map in which nobody has visited yet.
pub open spec fn no_counts() -> Counts {
    Map::empty()
}

/// A name can key a record when it is not empty.
pub open spec fn valid_name(name: Seq<char>) -> bool {
    name.len() > 0
}

/// A count can be recorded when it is at least one and fits the column.
pub open spec fn valid_count(count: int) -> bool {
    1 <= count <= MAX_COUNT
}

/// Every record in `counts` has a valid name and a valid count.
pub open spec fn well_formed(counts: Counts) -> bool {
    forall|name: Seq<char>| #[trigger]
        counts.contains_key(name) ==> valid_name(name) && valid_count(counts[name])
}

/// Every count in `cached` is the count that `counts` has for that name.
pub open spec fn mirrors(cached: Counts, counts: Counts) -> bool {
    forall|name: Seq<char>| #[trigger]
        cached.contains_key(name) ==> counts.contains_key(name) && counts[name] == cached[name]
}

/// How often `name` has visited: its recorded count, or zero without a record.
pub open spec fn visits_of(counts: Counts, name: Seq<char>) -> int {
    if counts.contains_key(name) {
        counts[name]
    } else {
        0
    }
}

/// The counts after one more visit of `name`.
pub open spec fn after_visit(counts: Counts, name: Seq<char>) -> Counts {
    counts.insert(name, visits_of(counts, name) + 1)
}

/// The counts after the visits of `names`, in that order.
pub open spec fn after_visits(counts: Counts, names: Seq<Seq<char>>) -> Counts
    decreases names.len(),
{
    if names.len() == 0 {
        counts
    } else {
        after_visit(after_visits(counts, names.drop_last()), names.last())
    }
}

/// How many of the visits in `names` are visits of `name`.
pub open spec fn occurrences(names: Seq<Seq<char>>, name: Seq<char>) -> int
    decreases names.len(),
{
    if names.len() == 0 {
        0
    } else if names.last() == name {
        occurrences(names.drop_last(), name) + 1
    } else {
        occurrences(names.drop_last(), name)
    }
}

/// The counts that the visits of `name` among `names` leave behind, in the
/// order of those visits.
pub open spec fn new_counts(counts: Counts, names: Seq<Seq<char>>, name: Seq<char>) -> Seq<int>
    decreases names.len(),
{
    if names.len() == 0 {
        Seq::empty()
    } else if names.last() == name {
        new_counts(counts, names.drop_last(), name).push(
            visits_of(after_visits(counts, names.drop_last()), name) + 1,
        )
    } else {
        new_counts(counts, names.drop_last(), name)
    }
}

} // verus!
