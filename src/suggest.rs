//! Nearest-match suggestions for a command name that is not known.
use vstd::prelude::*;
use crate::text::{chars_of, views};

verus! {

/// Suggestions are made only below this edit distance.
pub const SUGGESTION_LIMIT: usize = 4;

pub open spec fn min2(x: nat, y: nat) -> nat {
    if x <= y {
        x
    } else {
        y
    }
}

pub open spec fn max2(x: nat, y: nat) -> nat {
    if x >= y {
        x
    } else {
        y
    }
}

/// Levenshtein distance: the least number of single-character insertions,
/// deletions and substitutions that turn `a` into `b`.
pub open spec fn edit_distance(a: Seq<char>, b: Seq<char>) -> nat
    decreases a.len() + b.len(),
{
    if a.len() == 0 {
        b.len()
    } else if b.len() == 0 {
        a.len()
    } else {
        let cost: nat = if a.last() == b.last() { 0 } else { 1 };
        min2(
            min2(edit_distance(a.drop_last(), b) + 1, edit_distance(a, b.drop_last()) + 1),
            edit_distance(a.drop_last(), b.drop_last()) + cost,
        )
    }
}

pub proof fn lemma_edit_distance_bound(a: Seq<char>, b: Seq<char>)
    ensures
        edit_distance(a, b) <= max2(a.len(), b.len()),
    decreases a.len() + b.len(),
{
    if a.len() > 0 && b.len() > 0 {
        lemma_edit_distance_bound(a.drop_last(), b.drop_last());
    }
}

/// The edit distance between `a` and `b`.
pub fn lev_distance(a: &str, b: &str) -> (r: usize)
    ensures
        r == edit_distance(a@, b@),
{
    let x = chars_of(a);
    let y = chars_of(b);
    let n = x.len();
    let m = y.len();
    // prev[k] is the distance between the first i characters of `a` and the
    // first k characters of `b`.
    let mut prev: Vec<usize> = Vec::new();
    let mut k: usize = 0;
    while k < m
        invariant
            k <= m,
            m == y@.len(),
            prev@.len() == k,
            forall|t: int| 0 <= t < k ==> prev@[t] == edit_distance(x@.take(0), y@.take(t)),
        decreases m - k,
    {
        prev.push(k);
        k = k + 1;
    }
    prev.push(m);
    let mut i: usize = 0;
    while i < n
        invariant
            i <= n,
            n == x@.len(),
            m == y@.len(),
            prev@.len() == m + 1,
            forall|t: int|
                0 <= t <= m ==> prev@[t] == edit_distance(x@.take(i as int), y@.take(t)),
        decreases n - i,
    {
        let c = x[i];
        let mut cur: Vec<usize> = Vec::new();
        cur.push(i + 1);
        proof {
            assert(x@.take(i + 1).len() > 0);
            assert(y@.take(0).len() == 0);
        }
        let mut j: usize = 0;
        while j < m
            invariant
                i < n,
                j <= m,
                n == x@.len(),
                m == y@.len(),
                c == x@[i as int],
                prev@.len() == m + 1,
                cur@.len() == j + 1,
                forall|t: int|
                    0 <= t <= m ==> prev@[t] == edit_distance(x@.take(i as int), y@.take(t)),
                forall|t: int|
                    0 <= t <= j ==> cur@[t] == edit_distance(x@.take(i + 1), y@.take(t)),
            decreases m - j,
        {
            let ghost xa = x@.take(i + 1);
            let ghost yb = y@.take(j + 1);
            proof {
                assert(xa.drop_last() =~= x@.take(i as int));
                assert(yb.drop_last() =~= y@.take(j as int));
                lemma_edit_distance_bound(x@.take(i as int), y@.take(j as int));
            }
            let cost: usize = if c == y[j] { 0 } else { 1 };
            let sub = prev[j] + cost;
            let skip = if prev[j + 1] <= cur[j] { prev[j + 1] } else { cur[j] };
            let v = if skip < sub { skip + 1 } else { sub };
            cur.push(v);
            j = j + 1;
        }
        prev = cur;
        i = i + 1;
    }
    proof {
        assert(x@.take(n as int) =~= a@);
        assert(y@.take(m as int) =~= b@);
    }
    prev[m]
}

/// The position of the first candidate at the least edit distance from
/// `unknown`, among those closer than the suggestion limit.
pub open spec fn is_closest(unknown: Seq<char>, candidates: Seq<Seq<char>>, k: int) -> bool {
    &&& 0 <= k < candidates.len()
    &&& edit_distance(unknown, candidates[k]) < SUGGESTION_LIMIT
    &&& forall|t: int|
        0 <= t < candidates.len() ==> edit_distance(unknown, candidates[t]) >= edit_distance(
            unknown,
            candidates[k],
        )
    &&& forall|t: int|
        0 <= t < k ==> edit_distance(unknown, candidates[t]) > edit_distance(
            unknown,
            candidates[k],
        )
}

/// The candidate to suggest for `unknown`: the first one at the least edit
/// distance, provided that distance is below the limit; none otherwise.
pub fn find_closest(unknown: &str, candidates: &Vec<String>) -> (r: Option<String>)
    ensures
        r is None <==> (forall|t: int|
            0 <= t < candidates@.len() ==> edit_distance(unknown@, candidates@[t]@)
                >= SUGGESTION_LIMIT),
        r matches Some(s) ==> exists|k: int|
            is_closest(unknown@, views(candidates@), k) && s@ == candidates@[k]@,
{
    let mut best: Option<(usize, usize)> = None;
    let mut t: usize = 0;
    while t < candidates.len()
        invariant
            t <= candidates@.len(),
            match best {
                None => forall|u: int|
                    0 <= u < t ==> edit_distance(unknown@, candidates@[u]@) >= SUGGESTION_LIMIT,
                Some((k, d)) => {
                    &&& k < t
                    &&& d == edit_distance(unknown@, candidates@[k as int]@)
                    &&& d < SUGGESTION_LIMIT
                    &&& forall|u: int|
                        0 <= u < t ==> edit_distance(unknown@, candidates@[u]@) >= d
                    &&& forall|u: int|
                        0 <= u < k ==> edit_distance(unknown@, candidates@[u]@) > d
                },
            },
        decreases candidates@.len() - t,
    {
        let d = lev_distance(unknown, candidates[t].as_str());
        if d < SUGGESTION_LIMIT {
            match best {
                None => {
                    best = Some((t, d));
                },
                Some((_, bd)) => {
                    if d < bd {
                        best = Some((t, d));
                    }
                },
            }
        }
        t = t + 1;
    }
    match best {
        None => None,
        Some((k, _)) => {
            let s = candidates[k].clone();
            proof {
                let vs = views(candidates@);
                assert(vs[k as int] == candidates@[k as int]@);
                assert forall|u: int| 0 <= u < vs.len() implies edit_distance(unknown@, vs[u])
                    >= edit_distance(unknown@, vs[k as int]) by {
                    assert(vs[u] == candidates@[u]@);
                }
                assert forall|u: int| 0 <= u < k implies edit_distance(unknown@, vs[u])
                    > edit_distance(unknown@, vs[k as int]) by {
                    assert(vs[u] == candidates@[u]@);
                }
                assert(is_closest(unknown@, vs, k as int));
            }
            Some(s)
        },
    }
}

} // verus!
