//! The filter query engine: conjunctive and disjunctive evaluation of an
//! optional-field predicate over the record table.

use vstd::prelude::*;
use crate::record::{Course, FilterPayLoad};

verus! {

/// No criterion at all is present in the predicate.
pub open spec fn filter_absent(p: FilterPayLoad) -> bool {
    &&& p.keyword is None
    &&& p.category is None
    &&& p.creator_address is None
    &&& p.created_from is None
    &&& p.created_to is None
}

/// The creation-time range criterion is present.
pub open spec fn range_present(p: FilterPayLoad) -> bool {
    p.created_from is Some || p.created_to is Some
}

/// The timestamp lies within the (inclusive, possibly half-open) range.
pub open spec fn in_created_range(p: FilterPayLoad, t: u64) -> bool {
    &&& match p.created_from {
        Some(lo) => lo <= t,
        None => true,
    }
    &&& match p.created_to {
        Some(hi) => t <= hi,
        None => true,
    }
}

/// Conjunctive match: the record satisfies every present criterion.
pub open spec fn matches_and(p: FilterPayLoad, c: Course) -> bool {
    &&& match p.keyword {
        Some(k) => c.keyword@ == k@,
        None => true,
    }
    &&& match p.category {
        Some(k) => c.category@ == k@,
        None => true,
    }
    &&& match p.creator_address {
        Some(k) => c.creator_address@ == k@,
        None => true,
    }
    &&& in_created_range(p, c.created_at)
}

/// Disjunctive match: the record satisfies at least one present criterion.
pub open spec fn matches_or(p: FilterPayLoad, c: Course) -> bool {
    ||| match p.keyword {
        Some(k) => c.keyword@ == k@,
        None => false,
    }
    ||| match p.category {
        Some(k) => c.category@ == k@,
        None => false,
    }
    ||| match p.creator_address {
        Some(k) => c.creator_address@ == k@,
        None => false,
    }
    ||| (range_present(p) && in_created_range(p, c.created_at))
}

/// The subsequence of records matching every present criterion, in table
/// order.
pub open spec fn matching_and(s: Seq<Course>, p: FilterPayLoad) -> Seq<Course>
    decreases s.len(),
{
    if s.len() == 0 {
        Seq::empty()
    } else {
        let rest = matching_and(s.drop_last(), p);
        if matches_and(p, s.last()) {
            rest.push(s.last())
        } else {
            rest
        }
    }
}

/// The subsequence of records matching at least one present criterion, in
/// table order.
pub open spec fn matching_or(s: Seq<Course>, p: FilterPayLoad) -> Seq<Course>
    decreases s.len(),
{
    if s.len() == 0 {
        Seq::empty()
    } else {
        let rest = matching_or(s.drop_last(), p);
        if matches_or(p, s.last()) {
            rest.push(s.last())
        } else {
            rest
        }
    }
}

/// The conjunctive selection is non-empty exactly when some record of the
/// table matches, and everything it selects matches and is a member of the
/// table.
pub proof fn lemma_matching_and_members(s: Seq<Course>, p: FilterPayLoad)
    ensures
        forall|k: int| 0 <= k < matching_and(s, p).len() ==> matches_and(
            p,
            #[trigger] matching_and(s, p)[k],
        ) && s.contains(matching_and(s, p)[k]),
        matching_and(s, p).len() > 0 <==> exists|i: int| 0 <= i < s.len() && matches_and(
            p,
            #[trigger] s[i],
        ),
    decreases s.len(),
{
    if s.len() > 0 {
        let butlast = s.drop_last();
        lemma_matching_and_members(butlast, p);
        assert forall|k: int| 0 <= k < matching_and(s, p).len() implies matches_and(
            p,
            #[trigger] matching_and(s, p)[k],
        ) && s.contains(matching_and(s, p)[k]) by {
            let x = matching_and(s, p)[k];
            if matches_and(p, s.last()) && k == matching_and(s, p).len() - 1 {
                assert(s[s.len() - 1] == x);
            } else {
                assert(x == matching_and(butlast, p)[k]);
                assert(butlast.contains(x));
                let j = choose|j: int| 0 <= j < butlast.len() && butlast[j] == x;
                assert(s[j] == x);
            }
        }
        if matching_and(s, p).len() > 0 && !matches_and(p, s.last()) {
            let i = choose|i: int|
                0 <= i < butlast.len() && matches_and(p, #[trigger] butlast[i]);
            assert(matches_and(p, s[i]));
        }
        if exists|i: int| 0 <= i < s.len() && matches_and(p, #[trigger] s[i]) {
            let i = choose|i: int| 0 <= i < s.len() && matches_and(p, #[trigger] s[i]);
            if i < s.len() - 1 {
                assert(matches_and(p, butlast[i]));
            }
        }
    }
}

/// The disjunctive selection is non-empty exactly when some record of the
/// table matches, and everything it selects matches and is a member of the
/// table.
pub proof fn lemma_matching_or_members(s: Seq<Course>, p: FilterPayLoad)
    ensures
        forall|k: int| 0 <= k < matching_or(s, p).len() ==> matches_or(
            p,
            #[trigger] matching_or(s, p)[k],
        ) && s.contains(matching_or(s, p)[k]),
        matching_or(s, p).len() > 0 <==> exists|i: int| 0 <= i < s.len() && matches_or(
            p,
            #[trigger] s[i],
        ),
    decreases s.len(),
{
    if s.len() > 0 {
        let butlast = s.drop_last();
        lemma_matching_or_members(butlast, p);
        assert forall|k: int| 0 <= k < matching_or(s, p).len() implies matches_or(
            p,
            #[trigger] matching_or(s, p)[k],
        ) && s.contains(matching_or(s, p)[k]) by {
            let x = matching_or(s, p)[k];
            if matches_or(p, s.last()) && k == matching_or(s, p).len() - 1 {
                assert(s[s.len() - 1] == x);
            } else {
                assert(x == matching_or(butlast, p)[k]);
                assert(butlast.contains(x));
                let j = choose|j: int| 0 <= j < butlast.len() && butlast[j] == x;
                assert(s[j] == x);
            }
        }
        if matching_or(s, p).len() > 0 && !matches_or(p, s.last()) {
            let i = choose|i: int| 0 <= i < butlast.len() && matches_or(p, #[trigger] butlast[i]);
            assert(matches_or(p, s[i]));
        }
        if exists|i: int| 0 <= i < s.len() && matches_or(p, #[trigger] s[i]) {
            let i = choose|i: int| 0 <= i < s.len() && matches_or(p, #[trigger] s[i]);
            if i < s.len() - 1 {
                assert(matches_or(p, butlast[i]));
            }
        }
    }
}

/// Whether no criterion at all is present in the predicate.
pub fn filter_is_absent(p: &FilterPayLoad) -> (r: bool)
    ensures
        r == filter_absent(*p),
{
    p.keyword.is_none() && p.category.is_none() && p.creator_address.is_none()
        && p.created_from.is_none() && p.created_to.is_none()
}

/// Whether the record satisfies every present criterion.
pub fn course_matches_and(p: &FilterPayLoad, c: &Course) -> (r: bool)
    ensures
        r == matches_and(*p, *c),
{
    let mut m = true;
    match &p.keyword {
        Some(k) => {
            m = m && c.keyword == *k;
        },
        None => {},
    }
    match &p.category {
        Some(k) => {
            m = m && c.category == *k;
        },
        None => {},
    }
    match &p.creator_address {
        Some(k) => {
            m = m && c.creator_address == *k;
        },
        None => {},
    }
    match &p.created_from {
        Some(lo) => {
            m = m && *lo <= c.created_at;
        },
        None => {},
    }
    match &p.created_to {
        Some(hi) => {
            m = m && c.created_at <= *hi;
        },
        None => {},
    }
    m
}

/// Whether the record satisfies at least one present criterion.
pub fn course_matches_or(p: &FilterPayLoad, c: &Course) -> (r: bool)
    ensures
        r == matches_or(*p, *c),
{
    let mut m = false;
    match &p.keyword {
        Some(k) => {
            m = m || c.keyword == *k;
        },
        None => {},
    }
    match &p.category {
        Some(k) => {
            m = m || c.category == *k;
        },
        None => {},
    }
    match &p.creator_address {
        Some(k) => {
            m = m || c.creator_address == *k;
        },
        None => {},
    }
    let mut in_range = false;
    match &p.created_from {
        Some(lo) => {
            in_range = *lo <= c.created_at;
            match &p.created_to {
                Some(hi) => {
                    in_range = in_range && c.created_at <= *hi;
                },
                None => {},
            }
        },
        None => {
            match &p.created_to {
                Some(hi) => {
                    in_range = c.created_at <= *hi;
                },
                None => {},
            }
        },
    }
    m || in_range
}

} // verus!
