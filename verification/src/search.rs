//! Search results: how many are asked for, and the order they come in.
use crate::document::FieldValue;
use vstd::multiset::Multiset;
use vstd::prelude::*;
use vstd::seq_lib::to_multiset_insert;

verus! {

/// The number of results a search returns when the caller names no limit.
pub const DEFAULT_LIMIT: usize = 10;

/// One matching document.
#[derive(Clone, Debug)]
pub struct Hit {
    /// The relevance score, as the bit pattern of the engine's non-negative
    /// 32-bit float. Among such floats a larger pattern is a larger score.
    pub score_bits: u32,
    /// The ordinal of the segment that holds the document.
    pub segment: u32,
    /// The document's number within its segment.
    pub doc: u32,
    /// The stored field values of the document.
    pub stored: Vec<FieldValue>,
}

/// How a search is run.
#[derive(Clone, Copy, Debug, PartialEq, Eq, Structural)]
pub enum SearchPlan {
    /// No result is wanted: the answer is empty and the engine is not asked.
    Nothing,
    /// The engine is asked for the best `limit` matches; `limit` is not zero.
    Run { limit: usize },
}

/// `a` comes before `b` in a result: it scores higher or, at equal score,
/// its document identifier (segment, then document number) is smaller.
pub open spec fn ranks_before(a: Hit, b: Hit) -> bool {
    a.score_bits > b.score_bits || (a.score_bits == b.score_bits && (a.segment < b.segment || (
    a.segment == b.segment && a.doc < b.doc)))
}

/// No hit comes after one that it ranks before.
pub open spec fn ordered(hits: Seq<Hit>) -> bool {
    forall|i: int, j: int| 0 <= i < j < hits.len() ==> !ranks_before(hits[j], hits[i])
}

/// How many hits at the front of `hits` rank before `x`.
pub open spec fn lead(x: Hit, hits: Seq<Hit>) -> nat
    decreases hits.len(),
{
    if hits.len() > 0 && ranks_before(hits[0], x) {
        1 + lead(x, hits.drop_first())
    } else {
        0
    }
}

/// The hits in result order. Hits that rank the same keep the order they
/// were given in.
pub open spec fn ranked(hits: Seq<Hit>) -> Seq<Hit>
    decreases hits.len(),
{
    if hits.len() == 0 {
        hits
    } else {
        let rest = ranked(hits.drop_first());
        rest.insert(lead(hits[0], rest) as int, hits[0])
    }
}

/// The limit a search runs with: the one asked for, or the default.
pub open spec fn limit_of(requested: Option<usize>) -> usize {
    match requested {
        Some(n) => n,
        None => DEFAULT_LIMIT,
    }
}

/// `lead` is the first position whose hit does not rank before `x`.
proof fn lead_is_first_stop(x: Hit, hits: Seq<Hit>, p: int)
    requires
        0 <= p <= hits.len(),
        forall|j: int| 0 <= j < p ==> ranks_before(hits[j], x),
        p < hits.len() ==> !ranks_before(hits[p], x),
    ensures
        lead(x, hits) == p,
    decreases p,
{
    if p > 0 {
        lead_is_first_stop(x, hits.drop_first(), p - 1);
    }
}

/// `lead` stays within the sequence, every hit before it ranks before `x`,
/// and the hit at it, if any, does not.
proof fn lead_bounds(x: Hit, hits: Seq<Hit>)
    ensures
        lead(x, hits) <= hits.len(),
        forall|j: int| 0 <= j < lead(x, hits) ==> ranks_before(hits[j], x),
        lead(x, hits) < hits.len() ==> !ranks_before(hits[lead(x, hits) as int], x),
    decreases hits.len(),
{
    if hits.len() > 0 && ranks_before(hits[0], x) {
        let tail = hits.drop_first();
        lead_bounds(x, tail);
        assert forall|j: int| 0 <= j < lead(x, hits) implies ranks_before(hits[j], x) by {
            if j > 0 {
                assert(tail[j - 1] == hits[j]);
            }
        }
    }
}

/// Putting a hit at its `lead` keeps an ordered sequence ordered.
proof fn insert_keeps_order(x: Hit, hits: Seq<Hit>)
    requires
        ordered(hits),
    ensures
        ordered(hits.insert(lead(x, hits) as int, x)),
{
    lead_bounds(x, hits);
    let p = lead(x, hits) as int;
    let out = hits.insert(p, x);
    assert forall|i: int, j: int| 0 <= i < j < out.len() implies !ranks_before(out[j], out[i]) by {
        if i == p && j - 1 > p {
            assert(!ranks_before(hits[j - 1], hits[p]));
        }
    }
}

/// A ranked sequence is in result order: by descending score, ties broken
/// by ascending document identifier.
pub proof fn ranked_is_ordered(hits: Seq<Hit>)
    ensures
        ordered(ranked(hits)),
        ranked(hits).len() == hits.len(),
    decreases hits.len(),
{
    if hits.len() > 0 {
        let rest = ranked(hits.drop_first());
        ranked_is_ordered(hits.drop_first());
        lead_bounds(hits[0], rest);
        insert_keeps_order(hits[0], rest);
    }
}

/// Ranking neither loses nor invents a hit: the ranked sequence holds the
/// same hits, each as often as it was given.
pub proof fn ranked_is_permutation(hits: Seq<Hit>)
    ensures
        ranked(hits).to_multiset() == hits.to_multiset(),
    decreases hits.len(),
{
    broadcast use vstd::multiset::group_multiset_axioms;

    if hits.len() > 0 {
        let rest = ranked(hits.drop_first());
        ranked_is_permutation(hits.drop_first());
        ranked_is_ordered(hits.drop_first());
        lead_bounds(hits[0], rest);
        to_multiset_insert(rest, lead(hits[0], rest) as int, hits[0]);
        hits.to_multiset_ensures();
        assert(hits =~= seq![hits[0]] + hits.drop_first());
        vstd::seq_lib::lemma_multiset_commutative(seq![hits[0]], hits.drop_first());
        assert(seq![hits[0]].to_multiset() =~= Multiset::<Hit>::empty().insert(hits[0])) by {
            seq![hits[0]].to_multiset_ensures();
            vstd::seq_lib::to_multiset_build(Seq::<Hit>::empty(), hits[0]);
        }
    }
}

/// Ranking what is already in result order changes nothing.
pub proof fn ranked_is_idempotent(hits: Seq<Hit>)
    requires
        ordered(hits),
    ensures
        ranked(hits) == hits,
    decreases hits.len(),
{
    if hits.len() > 0 {
        let tail = hits.drop_first();
        ranked_is_idempotent(tail);
        lead_is_first_stop(hits[0], tail, 0);
    }
}

/// The answer to a search: hits in result order.
#[derive(Debug)]
pub struct SearchResult {
    hits: Vec<Hit>,
}

impl View for SearchResult {
    type V = Seq<Hit>;

    closed spec fn view(&self) -> Seq<Hit> {
        self.hits@
    }
}

/// Whether `a` comes before `b` in a result.
pub fn precedes(a: &Hit, b: &Hit) -> (before: bool)
    ensures
        before == ranks_before(*a, *b),
{
    a.score_bits > b.score_bits || (a.score_bits == b.score_bits && (a.segment < b.segment || (
    a.segment == b.segment && a.doc < b.doc)))
}

/// Decides how a search is run for the limit asked for.
pub fn plan_search(requested: Option<usize>) -> (plan: SearchPlan)
    ensures
        plan == if limit_of(requested) == 0 {
            SearchPlan::Nothing
        } else {
            SearchPlan::Run { limit: limit_of(requested) }
        },
{
    let limit = match requested {
        Some(n) => n,
        None => DEFAULT_LIMIT,
    };
    if limit == 0 {
        SearchPlan::Nothing
    } else {
        SearchPlan::Run { limit }
    }
}

impl SearchResult {
    #[verifier::type_invariant]
    spec fn well_formed(self) -> bool {
        ordered(self.hits@)
    }

    /// The result of a search that matched nothing.
    pub fn empty() -> (result: SearchResult)
        ensures
            result@.len() == 0,
    {
        SearchResult { hits: Vec::new() }
    }

    /// Puts hits in result order and keeps the first `limit` of them.
    pub fn rank(hits: Vec<Hit>, limit: usize) -> (result: SearchResult)
        ensures
            result@ == ranked(hits@).take(
                if limit <= hits@.len() {
                    limit as int
                } else {
                    hits@.len() as int
                },
            ),
    {
        let ghost all = hits@;
        let mut rest = hits;
        let mut out: Vec<Hit> = Vec::new();
        while rest.len() > 0
            invariant
                rest@.len() <= all.len(),
                rest@ == all.take(rest@.len() as int),
                out@ == ranked(all.subrange(rest@.len() as int, all.len() as int)),
            decreases rest@.len(),
        {
            let ghost k = rest@.len() - 1;
            let ghost tail = all.subrange(k + 1, all.len() as int);
            let x = rest.pop().unwrap();
            let mut p: usize = 0;
            while p < out.len() && precedes(&out[p], &x)
                invariant
                    p <= out.len(),
                    forall|j: int| 0 <= j < p ==> ranks_before(out@[j], x),
                decreases out.len() - p,
            {
                p += 1;
            }
            proof {
                lead_is_first_stop(x, out@, p as int);
                assert(all.subrange(k, all.len() as int).drop_first() =~= tail);
            }
            out.insert(p, x);
        }
        proof {
            assert(all.subrange(0, all.len() as int) =~= all);
            ranked_is_ordered(all);
        }
        out.truncate(limit);
        SearchResult { hits: out }
    }

    /// The hits, best first.
    pub fn hits(&self) -> (hits: &Vec<Hit>)
        ensures
            hits@ == self@,
            ordered(self@),
    {
        proof {
            use_type_invariant(self);
        }
        &self.hits
    }

    /// The number of hits.
    pub fn len(&self) -> (n: usize)
        ensures
            n == self@.len(),
    {
        self.hits.len()
    }

    /// Whether the search matched nothing.
    pub fn is_empty(&self) -> (none: bool)
        ensures
            none == (self@.len() == 0),
    {
        self.hits.len() == 0
    }
}

impl Hit {
    /// The first stored value of the hit under a field name, if it has one.
    pub fn stored_text(&self, field: &String) -> (text: Option<&String>)
        ensures
            match text {
                Some(t) => exists|k: int|
                    {
                        &&& 0 <= k < self.stored@.len()
                        &&& (#[trigger] self.stored@[k]).field@ == field@
                        &&& self.stored@[k].text == *t
                        &&& forall|j: int|
                            0 <= j < k ==> (#[trigger] self.stored@[j]).field@ != field@
                    },
                None => forall|k: int|
                    0 <= k < self.stored@.len() ==> (#[trigger] self.stored@[k]).field@ != field@,
            },
    {
        let mut k: usize = 0;
        while k < self.stored.len()
            invariant
                k <= self.stored.len(),
                forall|j: int| 0 <= j < k ==> (#[trigger] self.stored@[j]).field@ != field@,
            decreases self.stored.len() - k,
        {
            if self.stored[k].field == *field {
                return Some(&self.stored[k].text);
            }
            k += 1;
        }
        None
    }
}

} // verus!
