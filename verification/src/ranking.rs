use vstd::prelude::*;

use crate::geolocation::{CitySearchResult, CitySearchResultView, result_views};

verus! {

broadcast use vstd::seq_lib::group_seq_properties;

// ---------------------------------------------------------------------------
// The order of search results
// ---------------------------------------------------------------------------

/// Where an item with `score` goes in a list ordered by descending score:
/// before the first item that scores less, so that it follows every item
/// that scores as much or more.
pub open spec fn insert_position(s: Seq<CitySearchResultView>, score: i64) -> nat
    decreases s.len(),
{
    if s.len() == 0 {
        0
    } else if s[0].score < score {
        0
    } else {
        1 + insert_position(s.drop_first(), score)
    }
}

/// The results ordered by descending score; results that score the same keep
/// the order they came in (a stable sort).
pub open spec fn sort_by_score(s: Seq<CitySearchResultView>) -> Seq<CitySearchResultView>
    decreases s.len(),
{
    if s.len() == 0 {
        seq![]
    } else {
        let t = sort_by_score(s.drop_last());
        t.insert(insert_position(t, s.last().score) as int, s.last())
    }
}

/// The number of results offered to the user.
pub open spec fn max_results() -> nat {
    5
}

/// The first five of `s`, or all of it when it is shorter.
pub open spec fn first_results(s: Seq<CitySearchResultView>) -> Seq<CitySearchResultView> {
    if s.len() <= max_results() {
        s
    } else {
        s.take(max_results() as int)
    }
}

pub open spec fn is_sorted_by_score(s: Seq<CitySearchResultView>) -> bool {
    forall|i: int, j: int| 0 <= i < j < s.len() ==> s[i].score >= s[j].score
}

pub open spec fn with_score(k: i64) -> spec_fn(CitySearchResultView) -> bool {
    |r: CitySearchResultView| r.score == k
}

proof fn lemma_insert_position_bound(s: Seq<CitySearchResultView>, score: i64)
    ensures
        insert_position(s, score) <= s.len(),
        forall|k: int| 0 <= k < insert_position(s, score) ==> s[k].score >= score,
    decreases s.len(),
{
    if s.len() > 0 && s[0].score >= score {
        lemma_insert_position_bound(s.drop_first(), score);
        assert forall|k: int| 0 <= k < insert_position(s, score) implies s[k].score >= score by {
            if k > 0 {
                assert(s[k] == s.drop_first()[k - 1]);
            }
        }
    }
}

proof fn lemma_insert_position_sorted(s: Seq<CitySearchResultView>, score: i64)
    requires
        is_sorted_by_score(s),
    ensures
        forall|k: int| insert_position(s, score) <= k < s.len() ==> s[k].score < score,
    decreases s.len(),
{
    if s.len() > 0 {
        if s[0].score < score {
            assert forall|k: int| 0 <= k < s.len() implies s[k].score < score by {
                if k > 0 {
                    assert(s[0].score >= s[k].score);
                }
            }
        } else {
            lemma_insert_position_sorted(s.drop_first(), score);
            assert forall|k: int| insert_position(s, score) <= k < s.len() implies s[k].score < score by {
                assert(s[k] == s.drop_first()[k - 1]);
            }
        }
    }
}

/// `insert_position` is the index `j` at which a scan from the front first
/// meets a lower score.
proof fn lemma_insert_position_scan(s: Seq<CitySearchResultView>, score: i64, j: int)
    requires
        0 <= j <= s.len(),
        forall|k: int| 0 <= k < j ==> s[k].score >= score,
        j == s.len() || s[j].score < score,
    ensures
        insert_position(s, score) == j,
    decreases s.len(),
{
    if s.len() > 0 && j > 0 {
        assert forall|k: int| 0 <= k < j - 1 implies s.drop_first()[k].score >= score by {
            assert(s.drop_first()[k] == s[k + 1]);
        }
        lemma_insert_position_scan(s.drop_first(), score, j - 1);
    }
}

/// Law: the ordered results are in descending order of score.
pub proof fn lemma_sort_is_sorted(s: Seq<CitySearchResultView>)
    ensures
        is_sorted_by_score(sort_by_score(s)),
    decreases s.len(),
{
    if s.len() > 0 {
        let t = sort_by_score(s.drop_last());
        lemma_sort_is_sorted(s.drop_last());
        let x = s.last();
        let p = insert_position(t, x.score) as int;
        lemma_insert_position_bound(t, x.score);
        lemma_insert_position_sorted(t, x.score);
        let u = t.insert(p, x);
        t.insert_ensures(p, x);
        assert forall|i: int, j: int| 0 <= i < j < u.len() implies u[i].score >= u[j].score by {
            if j < p {
                assert(u[i] == t[i] && u[j] == t[j]);
            } else if j == p {
                assert(u[i] == t[i]);
            } else if i < p {
                assert(u[i] == t[i] && u[j] == t[j - 1]);
            } else if i == p {
                assert(u[j] == t[j - 1]);
            } else {
                assert(u[i] == t[i - 1] && u[j] == t[j - 1]);
            }
        }
    }
}

/// Law: ordering keeps every result, each as often as it came.
pub proof fn lemma_sort_is_permutation(s: Seq<CitySearchResultView>)
    ensures
        sort_by_score(s).to_multiset() == s.to_multiset(),
        sort_by_score(s).len() == s.len(),
    decreases s.len(),
{
    broadcast use vstd::seq_lib::to_multiset_insert, vstd::seq_lib::to_multiset_build;

    if s.len() > 0 {
        let t = sort_by_score(s.drop_last());
        lemma_sort_is_permutation(s.drop_last());
        let x = s.last();
        let p = insert_position(t, x.score) as int;
        lemma_insert_position_bound(t, x.score);
        vstd::seq_lib::to_multiset_insert(t, p, x);
        vstd::seq_lib::to_multiset_build(s.drop_last(), x);
        assert(s.drop_last().push(x) == s);
    }
}

/// Law: ordering is stable; the results of any one score come out in the
/// order in which they went in.
pub proof fn lemma_sort_is_stable(s: Seq<CitySearchResultView>, k: i64)
    ensures
        sort_by_score(s).filter(with_score(k)) == s.filter(with_score(k)),
    decreases s.len(),
{
    broadcast use vstd::seq_lib::group_seq_lib_default;

    if s.len() > 0 {
        let t = sort_by_score(s.drop_last());
        lemma_sort_is_stable(s.drop_last(), k);
        lemma_sort_is_sorted(s.drop_last());
        let x = s.last();
        let p = insert_position(t, x.score) as int;
        lemma_insert_position_bound(t, x.score);
        lemma_insert_position_sorted(t, x.score);
        let pred = with_score(k);
        let a = t.take(p);
        let b = t.skip(p);
        assert(t == a + b);
        assert(t.insert(p, x) == a.push(x) + b);
        s.drop_last().lemma_filter_push(x, pred);
        assert(s.drop_last().push(x) == s);
        a.lemma_filter_push(x, pred);
        if x.score == k {
            assert(b.filter(pred).len() == 0) by {
                if b.filter(pred).len() > 0 {
                    let y = b.filter(pred)[0];
                    assert(pred(y));
                    assert(b.filter(pred).contains(y));
                    b.lemma_filter_contains_rev(pred, y);
                    let i = choose|i: int| 0 <= i < b.len() && b[i] == y;
                    assert(b[i] == t[p + i]);
                }
            }
            assert(b.filter(pred) =~= seq![]);
            assert((a.filter(pred) + b.filter(pred)) =~= a.filter(pred));
            assert((a.filter(pred).push(x) + b.filter(pred)) =~= a.filter(pred).push(x));
        }
    }
}

/// The results ordered by descending score, results of equal score in the
/// order they came (an insertion sort).
pub fn sort_results_by_score(items: Vec<CitySearchResult>) -> (sorted: Vec<CitySearchResult>)
    ensures
        result_views(sorted@) == sort_by_score(result_views(items@)),
{
    let ghost all = result_views(items@);
    let mut out: Vec<CitySearchResult> = Vec::new();
    for x in it: items
        invariant
            it.seq() == items@,
            all == result_views(items@),
            result_views(out@) == sort_by_score(all.take(it.index() as int)),
    {
        let ghost i = it.index() as int;
        let ghost before = result_views(out@);
        proof {
            lemma_insert_position_bound(before, x.score);
        }
        let mut j: usize = 0;
        while j < out.len() && out[j].score >= x.score
            invariant
                j <= out.len(),
                before == result_views(out@),
                forall|k: int| 0 <= k < j ==> before[k].score >= x.score,
            decreases out.len() - j,
        {
            j = j + 1;
        }
        proof {
            lemma_insert_position_scan(before, x.score, j as int);
            assert(all.take(i + 1).drop_last() =~= all.take(i));
            assert(all.take(i + 1).last() == x@);
        }
        out.insert(j, x);
        proof {
            assert(result_views(out@) =~= before.insert(j as int, x@));
        }
    }
    proof {
        assert(all.take(all.len() as int) =~= all);
    }
    out
}

} // verus!
