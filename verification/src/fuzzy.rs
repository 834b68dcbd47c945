//! The matching policy of the selection menu: case-insensitive subsequence
//! matching, and the candidate list a query narrows an entry list down to.
//!
//! An empty query matches every label, so it shows all entries in their
//! original order; a non-empty query keeps exactly the labels that contain
//! its characters in order, compared case-insensitively.

use vstd::prelude::*;

verus! {

/// The case-folded code of a character: ASCII upper-case letters fold to
/// their lower-case counterparts, every other character stands for itself.
pub open spec fn fold(c: char) -> u32 {
    if 65 <= c as u32 && c as u32 <= 90 {
        (c as u32 + 32) as u32
    } else {
        c as u32
    }
}

/// The whole character sequence, case-folded.
pub open spec fn folded(s: Seq<char>) -> Seq<u32> {
    s.map_values(|c: char| fold(c))
}

/// Case-folds one character to the code the matcher compares by.
fn fold_char(c: char) -> (r: u32)
    ensures
        r == fold(c),
{
    let u = c as u32;
    if 65 <= u && u <= 90 {
        u + 32
    } else {
        u
    }
}

/// Whether the query from position `qi` on is a case-insensitive subsequence
/// of the label from position `ti` on, matched greedily: a pair of equal
/// heads is always taken.
pub open spec fn matches_from(q: Seq<char>, t: Seq<char>, qi: int, ti: int) -> bool
    decreases t.len() - ti,
{
    if qi >= q.len() {
        true
    } else if ti >= t.len() {
        false
    } else if fold(q[qi]) == fold(t[ti]) {
        matches_from(q, t, qi + 1, ti + 1)
    } else {
        matches_from(q, t, qi, ti + 1)
    }
}

/// Whether the query is a case-insensitive subsequence of the label. The
/// empty query matches every label.
pub open spec fn fuzzy_match(q: Seq<char>, t: Seq<char>) -> bool {
    matches_from(q, t, 0, 0)
}

/// A query that case-folds to the very characters of the label matches it:
/// exact case-insensitive equality is a special case of subsequence matching.
pub proof fn lemma_exact_match_matches(q: Seq<char>, t: Seq<char>)
    requires
        folded(q) == folded(t),
    ensures
        fuzzy_match(q, t),
{
    lemma_exact_match_from(q, t, 0);
}

proof fn lemma_exact_match_from(q: Seq<char>, t: Seq<char>, i: int)
    requires
        folded(q) == folded(t),
        0 <= i <= q.len(),
    ensures
        matches_from(q, t, i, i),
    decreases q.len() - i,
{
    assert(folded(q).len() == q.len());
    assert(folded(t).len() == t.len());
    if i < q.len() {
        assert(folded(q)[i] == fold(q[i]));
        assert(folded(t)[i] == fold(t[i]));
        lemma_exact_match_from(q, t, i + 1);
    }
}

/// Decides whether `query` is a case-insensitive subsequence of `label`.
pub fn fuzzy_matches(query: &str, label: &str) -> (r: bool)
    ensures
        r == fuzzy_match(query@, label@),
{
    let qn = query.unicode_len();
    let tn = label.unicode_len();
    let mut qi: usize = 0;
    let mut ti: usize = 0;
    while qi < qn && ti < tn
        invariant
            qn == query@.len(),
            tn == label@.len(),
            qi <= qn,
            ti <= tn,
            fuzzy_match(query@, label@) == matches_from(query@, label@, qi as int, ti as int),
        decreases tn - ti,
    {
        let qc = fold_char(query.get_char(qi));
        let tc = fold_char(label.get_char(ti));
        if qc == tc {
            qi += 1;
        }
        ti += 1;
    }
    qi == qn
}

/// The indices, from position `i` of the label list on, of the labels the
/// query matches, in their original order.
pub open spec fn candidates_from(labels: Seq<Seq<char>>, q: Seq<char>, i: int) -> Seq<int>
    decreases labels.len() - i,
{
    if i >= labels.len() {
        Seq::empty()
    } else if fuzzy_match(q, labels[i]) {
        seq![i] + candidates_from(labels, q, i + 1)
    } else {
        candidates_from(labels, q, i + 1)
    }
}

/// The candidate set a query narrows the label list down to: the indices of
/// the matching labels, in display order. An empty query keeps every index.
pub open spec fn candidate_indices(labels: Seq<Seq<char>>, q: Seq<char>) -> Seq<int> {
    candidates_from(labels, q, 0)
}

/// Every candidate index is within the label list and the list is strictly
/// increasing, so each entry occurs at most once.
pub proof fn lemma_candidates_in_range(labels: Seq<Seq<char>>, q: Seq<char>, i: int)
    requires
        0 <= i,
    ensures
        forall|n: int|
            0 <= n < candidates_from(labels, q, i).len() ==> i <= #[trigger] candidates_from(
                labels,
                q,
                i,
            )[n] < labels.len(),
        forall|n: int, m: int|
            0 <= n < m < candidates_from(labels, q, i).len() ==> candidates_from(labels, q, i)[n]
                < candidates_from(labels, q, i)[m],
    decreases labels.len() - i,
{
    if i < labels.len() {
        lemma_candidates_in_range(labels, q, i + 1);
        let cs = candidates_from(labels, q, i);
        let rest = candidates_from(labels, q, i + 1);
        if fuzzy_match(q, labels[i]) {
            assert(cs == seq![i] + rest);
            assert forall|n: int| 0 <= n < cs.len() implies i <= #[trigger] cs[n] < labels.len() by {
                if n > 0 {
                    assert(cs[n] == rest[n - 1]);
                }
            }
            assert forall|n: int, m: int| 0 <= n < m < cs.len() implies cs[n] < cs[m] by {
                assert(cs[m] == rest[m - 1]);
                if n > 0 {
                    assert(cs[n] == rest[n - 1]);
                }
            }
        }
    }
}

/// The candidate list holds exactly the indices of the labels the query
/// matches: filtering keeps every match and nothing else.
pub proof fn lemma_candidates_exactly_the_matches(labels: Seq<Seq<char>>, q: Seq<char>, i: int)
    requires
        0 <= i,
    ensures
        forall|k: int|
            #[trigger] candidates_from(labels, q, i).contains(k) <==> (i <= k < labels.len()
                && fuzzy_match(q, labels[k])),
    decreases labels.len() - i,
{
    if i < labels.len() {
        lemma_candidates_exactly_the_matches(labels, q, i + 1);
        let cs = candidates_from(labels, q, i);
        let rest = candidates_from(labels, q, i + 1);
        assert forall|k: int| cs.contains(k) implies (i <= k < labels.len() && fuzzy_match(
            q,
            labels[k],
        )) by {
            let n = choose|n: int| 0 <= n < cs.len() && cs[n] == k;
            if fuzzy_match(q, labels[i]) {
                if n > 0 {
                    assert(cs[n] == rest[n - 1]);
                    assert(rest.contains(k));
                }
            } else {
                assert(rest.contains(k));
            }
        }
        assert forall|k: int| i <= k < labels.len() && fuzzy_match(q, labels[k]) implies cs.contains(
            k,
        ) by {
            if k == i {
                assert(cs[0] == k);
            } else {
                assert(rest.contains(k));
                let n = choose|n: int| 0 <= n < rest.len() && rest[n] == k;
                if fuzzy_match(q, labels[i]) {
                    assert(cs[n + 1] == k);
                } else {
                    assert(cs[n] == k);
                }
            }
        }
    } else {
        assert(forall|k: int| !candidates_from(labels, q, i).contains(k));
    }
}

/// An empty query narrows nothing: every index stays a candidate, in its
/// original order, so an empty query shows all entries as they were listed.
pub proof fn lemma_empty_query_keeps_all(labels: Seq<Seq<char>>, q: Seq<char>)
    requires
        q.len() == 0,
    ensures
        candidate_indices(labels, q) == Seq::new(labels.len(), |k: int| k),
{
    lemma_empty_query_from(labels, q, 0);
    assert(candidates_from(labels, q, 0) =~= Seq::new(labels.len(), |k: int| k));
}

proof fn lemma_empty_query_from(labels: Seq<Seq<char>>, q: Seq<char>, i: int)
    requires
        q.len() == 0,
        0 <= i <= labels.len(),
    ensures
        candidates_from(labels, q, i) == Seq::new((labels.len() - i) as nat, |k: int| i + k),
    decreases labels.len() - i,
{
    if i < labels.len() {
        lemma_empty_query_from(labels, q, i + 1);
        assert(fuzzy_match(q, labels[i]));
        assert(seq![i] + Seq::new((labels.len() - (i + 1)) as nat, |k: int| i + 1 + k) =~= Seq::new(
            (labels.len() - i) as nat,
            |k: int| i + k,
        ));
    } else {
        assert(candidates_from(labels, q, i) =~= Seq::new((labels.len() - i) as nat, |k: int| i + k));
    }
}

/// Computes the candidate list: the indices of the labels that `query`
/// matches, in their original order.
pub fn candidates(labels: &Vec<String>, query: &str) -> (idxs: Vec<usize>)
    ensures
        idxs@.map_values(|u: usize| u as int) == candidate_indices(labels.deep_view(), query@),
{
    let ghost all = candidate_indices(labels.deep_view(), query@);
    let n = labels.len();
    let mut idxs: Vec<usize> = Vec::new();
    let mut i: usize = 0;
    while i < n
        invariant
            n == labels@.len(),
            i <= n,
            all == candidate_indices(labels.deep_view(), query@),
            all == idxs@.map_values(|u: usize| u as int) + candidates_from(
                labels.deep_view(),
                query@,
                i as int,
            ),
        decreases n - i,
    {
        let lab: &String = &labels[i];
        if fuzzy_matches(query, lab.as_str()) {
            let ghost prev = idxs@;
            idxs.push(i);
            proof {
                assert(labels.deep_view()[i as int] == labels@[i as int]@);
                assert(idxs@.map_values(|u: usize| u as int) =~= prev.map_values(
                    |u: usize| u as int,
                ).push(i as int));
                assert(prev.map_values(|u: usize| u as int) + (seq![i as int] + candidates_from(
                    labels.deep_view(),
                    query@,
                    i + 1,
                )) =~= idxs@.map_values(|u: usize| u as int) + candidates_from(
                    labels.deep_view(),
                    query@,
                    i + 1,
                ));
            }
        } else {
            proof {
                assert(labels.deep_view()[i as int] == labels@[i as int]@);
            }
        }
        i += 1;
    }
    proof {
        assert(all =~= idxs@.map_values(|u: usize| u as int));
    }
    idxs
}

} // verus!
