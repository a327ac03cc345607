//! What holds of visit counting, whatever the names and the counts.
//!
//! `VisitorCounter::record_visit` returns `visits_of` of the counts before
//! the call and leaves `after_visit` of them behind, so each statement here
//! about the model is a statement about completed calls.

use crate::model::{
    after_visit, after_visits, mirrors, new_counts, occurrences, valid_name, visits_of,
    well_formed, Counts, MAX_COUNT,
};
use vstd::prelude::*;

verus! {

/// A name that has no record has visited zero times, and its first visit
/// leaves a count of one.
pub proof fn law_first_visit(counts: Counts, name: Seq<char>)
    requires
        !counts.contains_key(name),
    ensures
        visits_of(counts, name) == 0,
        visits_of(after_visit(counts, name), name) == 1,
{
}

/// Right after a visit of `name` the store has a record of that name, and
/// its count is one more than the count before; the count of every other
/// name is as it was.
pub proof fn law_round_trip(counts: Counts, name: Seq<char>)
    ensures
        after_visit(counts, name).contains_key(name),
        after_visit(counts, name)[name] == visits_of(counts, name) + 1,
        forall|other: Seq<char>|
            other != name ==> visits_of(#[trigger] after_visit(counts, name), other) == visits_of(
                counts,
                other,
            ),
{
}

/// A visit keeps every record valid, as long as the name is valid and its
/// count can still grow.
pub proof fn law_visit_keeps_records_valid(counts: Counts, name: Seq<char>)
    requires
        well_formed(counts),
        valid_name(name),
        visits_of(counts, name) < MAX_COUNT,
    ensures
        well_formed(after_visit(counts, name)),
{
}

/// A cache that mirrors the counts before a visit, and takes the new count
/// of the visitor, mirrors the counts after the visit.
pub proof fn law_cache_follows_store(cached: Counts, counts: Counts, name: Seq<char>)
    requires
        mirrors(cached, counts),
    ensures
        mirrors(cached.insert(name, visits_of(counts, name) + 1), after_visit(counts, name)),
{
}

/// After any run of visits, of any names in any order, the count of a name
/// has grown by the number of its visits in the run. So the visit of a name
/// that follows `k - 1` earlier visits of it, starting from counts that lack
/// the name, finds `k - 1` and leaves `k`.
pub proof fn law_kth_visit(counts: Counts, names: Seq<Seq<char>>, name: Seq<char>)
    ensures
        visits_of(after_visits(counts, names), name) == visits_of(counts, name) + occurrences(
            names,
            name,
        ),
    decreases names.len(),
{
    if names.len() > 0 {
        law_kth_visit(counts, names.drop_last(), name);
    }
}

/// In any run of visits, the visits of one name leave the counts that follow
/// the name's count before the run, one by one: the `i`-th of them leaves
/// that count plus `i`.
pub proof fn law_new_counts_ascend(counts: Counts, names: Seq<Seq<char>>, name: Seq<char>)
    ensures
        new_counts(counts, names, name).len() == occurrences(names, name),
        forall|i: int|
            0 <= i < occurrences(names, name) ==> #[trigger] new_counts(counts, names, name)[i]
                == visits_of(counts, name) + i + 1,
    decreases names.len(),
{
    if names.len() > 0 {
        law_new_counts_ascend(counts, names.drop_last(), name);
        law_kth_visit(counts, names.drop_last(), name);
    }
}

/// However the visits of several names fall into one run, the `m` visits of
/// one name leave `m` different counts, and these are exactly the `m` counts
/// that follow the name's count before the run: none is repeated and none is
/// skipped. For a name without a record they are `1` to `m`.
pub proof fn law_visits_fill_range(counts: Counts, names: Seq<Seq<char>>, name: Seq<char>)
    ensures
        new_counts(counts, names, name).no_duplicates(),
        new_counts(counts, names, name).to_set() == Set::new(
            |count: int|
                visits_of(counts, name) < count <= visits_of(counts, name) + occurrences(
                    names,
                    name,
                ),
        ),
{
    let base = visits_of(counts, name);
    let news = new_counts(counts, names, name);
    law_new_counts_ascend(counts, names, name);
    assert forall|count: int| base < count <= base + occurrences(names, name) implies news.to_set()
        .contains(count) by {
        assert(news[count - base - 1] == count);
    }
    assert(news.to_set() =~= Set::new(
        |count: int| base < count <= base + occurrences(names, name),
    ));
}

} // verus!
