//! Which segments of an index are folded into one.
//!
//! Segments are named by their identifiers as text. The engine does the
//! merging; this module decides whether there is anything to merge and what.
use crate::text::listed;
use vstd::prelude::*;

verus! {

/// What to ask of the engine.
#[derive(Clone, Debug)]
pub enum MergePlan {
    /// Nothing: fewer than two of the segments asked for are live.
    Nothing,
    /// Fold these segments, of which there are at least two, into one.
    Merge { targets: Vec<String> },
}

/// The live segments that a request names, in the order the index lists them.
pub open spec fn merge_targets(live: Seq<Seq<char>>, requested: Seq<Seq<char>>) -> Seq<Seq<char>> {
    live.filter(|id: Seq<char>| requested.contains(id))
}

/// The live segments that a request does not name.
pub open spec fn untouched(live: Seq<Seq<char>>, requested: Seq<Seq<char>>) -> Seq<Seq<char>> {
    live.filter(|id: Seq<char>| !requested.contains(id))
}

/// The live segments once a request has been carried out, when the segment
/// that replaces the merged ones is called `fresh`.
pub open spec fn after_merge(
    live: Seq<Seq<char>>,
    requested: Seq<Seq<char>>,
    fresh: Seq<char>,
) -> Seq<Seq<char>> {
    if merge_targets(live, requested).len() >= 2 {
        untouched(live, requested).push(fresh)
    } else {
        live
    }
}

/// What `plan_merge` answers.
pub open spec fn planned(live: Seq<Seq<char>>, requested: Seq<Seq<char>>, plan: MergePlan) -> bool {
    match plan {
        MergePlan::Nothing => merge_targets(live, requested).len() < 2,
        MergePlan::Merge { targets } => {
            &&& targets.deep_view() == merge_targets(live, requested)
            &&& targets@.len() >= 2
        },
    }
}

/// One more live segment adds itself to the targets exactly when it is asked for.
proof fn targets_step(live: Seq<Seq<char>>, requested: Seq<Seq<char>>, i: int)
    requires
        0 <= i < live.len(),
    ensures
        merge_targets(live.take(i + 1), requested) == if requested.contains(live[i]) {
            merge_targets(live.take(i), requested).push(live[i])
        } else {
            merge_targets(live.take(i), requested)
        },
{
    reveal(Seq::filter);
    assert(live.take(i + 1).drop_last() =~= live.take(i));
}

/// Nothing that a request names is left among the untouched segments, and
/// nothing else is among the targets.
proof fn filters_partition(live: Seq<Seq<char>>, requested: Seq<Seq<char>>)
    ensures
        forall|k: int|
            0 <= k < untouched(live, requested).len() ==> !requested.contains(
                #[trigger] untouched(live, requested)[k],
            ),
        forall|k: int|
            0 <= k < merge_targets(live, requested).len() ==> requested.contains(
                #[trigger] merge_targets(live, requested)[k],
            ),
        merge_targets(live, requested).len() <= live.len(),
    decreases live.len(),
{
    reveal(Seq::filter);
    if live.len() > 0 {
        filters_partition(live.drop_last(), requested);
    }
}

/// Filtering segments none of which is asked for leaves no target.
proof fn no_target_among(live: Seq<Seq<char>>, requested: Seq<Seq<char>>)
    requires
        forall|k: int| 0 <= k < live.len() ==> !requested.contains(#[trigger] live[k]),
    ensures
        merge_targets(live, requested).len() == 0,
    decreases live.len(),
{
    reveal(Seq::filter);
    if live.len() > 0 {
        no_target_among(live.drop_last(), requested);
    }
}

/// Segment identifiers are unique, and a plan never names a segment twice:
/// when no live segment is listed twice, no target is.
pub proof fn targets_are_distinct(live: Seq<Seq<char>>, requested: Seq<Seq<char>>)
    requires
        live.no_duplicates(),
    ensures
        merge_targets(live, requested).no_duplicates(),
        forall|k: int|
            0 <= k < merge_targets(live, requested).len() ==> live.contains(
                #[trigger] merge_targets(live, requested)[k],
            ),
    decreases live.len(),
{
    reveal(Seq::filter);
    if live.len() > 0 {
        targets_are_distinct(live.drop_last(), requested);
    }
}

/// Merging what is already a single segment is a no-op: with fewer than two
/// live segments there is never anything to merge, whatever is asked for.
pub proof fn single_segment_needs_no_merge(
    live: Seq<Seq<char>>,
    requested: Seq<Seq<char>>,
    fresh: Seq<char>,
)
    requires
        live.len() <= 1,
    ensures
        merge_targets(live, requested).len() < 2,
        after_merge(live, requested, fresh) == live,
{
    filters_partition(live, requested);
}

/// A merge is idempotent: once a request has been carried out, carrying it
/// out again finds nothing to merge and leaves the segments as they are.
pub proof fn merge_is_idempotent(
    live: Seq<Seq<char>>,
    requested: Seq<Seq<char>>,
    fresh: Seq<char>,
    fresh_again: Seq<char>,
)
    requires
        !requested.contains(fresh),
    ensures
        merge_targets(after_merge(live, requested, fresh), requested).len() < 2,
        after_merge(after_merge(live, requested, fresh), requested, fresh_again) == after_merge(
            live,
            requested,
            fresh,
        ),
{
    if merge_targets(live, requested).len() >= 2 {
        filters_partition(live, requested);
        no_target_among(untouched(live, requested).push(fresh), requested);
    }
}

/// Plans the merge of the segments a request names, given the segments that
/// are live. Segments that are asked for but no longer live are left out, so
/// a request that was already carried out plans nothing.
pub fn plan_merge(live: &Vec<String>, requested: &Vec<String>) -> (plan: MergePlan)
    ensures
        planned(live.deep_view(), requested.deep_view(), plan),
{
    let mut targets: Vec<String> = Vec::new();
    let mut i: usize = 0;
    while i < live.len()
        invariant
            i <= live.len(),
            targets.deep_view() == merge_targets(
                live.deep_view().take(i as int),
                requested.deep_view(),
            ),
        decreases live.len() - i,
    {
        proof {
            targets_step(live.deep_view(), requested.deep_view(), i as int);
        }
        if listed(requested, &live[i]) {
            targets.push(live[i].clone());
        }
        i += 1;
    }
    assert(live.deep_view().take(i as int) =~= live.deep_view());
    if targets.len() >= 2 {
        MergePlan::Merge { targets }
    } else {
        MergePlan::Nothing
    }
}

/// Plans the default merge, run after each indexing run: all live segments
/// into one.
pub fn plan_merge_all(live: &Vec<String>) -> (plan: MergePlan)
    ensures
        planned(live.deep_view(), live.deep_view(), plan),
        merge_targets(live.deep_view(), live.deep_view()) == live.deep_view(),
{
    proof {
        all_are_targets(live.deep_view(), live.deep_view().len() as int);
        assert(live.deep_view().take(live.deep_view().len() as int) =~= live.deep_view());
    }
    plan_merge(live, live)
}

/// When everything is asked for, every live segment is a target.
proof fn all_are_targets(live: Seq<Seq<char>>, n: int)
    requires
        0 <= n <= live.len(),
    ensures
        merge_targets(live.take(n), live) == live.take(n),
    decreases n,
{
    reveal(Seq::filter);
    if n > 0 {
        all_are_targets(live, n - 1);
        targets_step(live, live, n - 1);
    }
}

} // verus!
