use vstd::prelude::*;

use fuzzy_matcher::skim::SkimMatcherV2;
use fuzzy_matcher::FuzzyMatcher;

use crate::record::{joined_text, lower_of, to_lower, BookmarkFile, BookmarkRecord};

verus! {

/// What the skim matcher (default configuration) scores `choice` against
/// `pattern`; `None` when `pattern` is not a fuzzy subsequence of `choice`.
pub uninterp spec fn skim_score(choice: Seq<char>, pattern: Seq<char>) -> Option<i64>;

/// `c` is an ASCII capital letter.
pub open spec fn is_ascii_upper(c: char) -> bool {
    'A' <= c && c <= 'Z'
}

/// The code of `c` with ASCII capitals taken to small letters.
pub open spec fn ascii_folded(c: char) -> int {
    if is_ascii_upper(c) {
        c as int + 32
    } else {
        c as int
    }
}

/// A character of the choice stands for one of the pattern: the same
/// character, or the same up to ASCII case where case is ignored.
pub open spec fn chars_match(c: char, p: char, case_sensitive: bool) -> bool {
    if case_sensitive {
        c == p
    } else {
        ascii_folded(c) == ascii_folded(p)
    }
}

/// The pattern holds an ASCII capital, which makes the matcher respect case.
pub open spec fn has_ascii_upper(p: Seq<char>) -> bool {
    exists|i: int| 0 <= i < p.len() && is_ascii_upper(#[trigger] p[i])
}

/// `idx` picks, in increasing order, a position of `choice` for each
/// character of `pattern` that stands for it.
pub open spec fn embeds(idx: Seq<int>, choice: Seq<char>, pattern: Seq<char>) -> bool {
    &&& idx.len() == pattern.len()
    &&& forall|k: int|
        0 <= k < idx.len() ==> 0 <= #[trigger] idx[k] < choice.len() && chars_match(
            choice[idx[k]],
            pattern[k],
            has_ascii_upper(pattern),
        )
    &&& forall|j: int, k: int| 0 <= j < k < idx.len() ==> #[trigger] idx[j] < #[trigger] idx[k]
}

/// `pattern` occurs in `choice` as a subsequence, ignoring ASCII case unless
/// the pattern holds an ASCII capital.
pub open spec fn fuzzy_subseq(choice: Seq<char>, pattern: Seq<char>) -> bool {
    exists|idx: Seq<int>| embeds(idx, choice, pattern)
}

/// Relies on `fuzzy_matcher::skim::SkimMatcherV2::fuzzy_match` with the
/// matcher's default configuration (smart case, no element limit): the score
/// depends on the two strings alone; an empty pattern scores zero; otherwise
/// there is a score exactly when the pattern is a subsequence of the choice
/// in the matcher's case rule, as its first pass over the characters decides.
#[verifier::external_body]
fn skim_match(choice: &str, pattern: &str) -> (r: Option<i64>)
    ensures
        r == skim_score(choice@, pattern@),
        r is Some <==> fuzzy_subseq(choice@, pattern@),
        pattern@.len() == 0 ==> r == Some(0i64),
{
    SkimMatcherV2::default().fuzzy_match(choice, pattern)
}

/// Score of one record for a query; an empty query matches nothing.
pub open spec fn record_score(query: Seq<char>, r: BookmarkRecord) -> Option<i64> {
    if query.len() == 0 {
        None
    } else {
        skim_score(lower_of(joined_text(r)), lower_of(query))
    }
}

/// A record matches a query: the query is not empty and, case-folded, it is
/// a subsequence of the record's searchable text.
pub open spec fn record_matches(query: Seq<char>, r: BookmarkRecord) -> bool {
    query.len() > 0 && fuzzy_subseq(lower_of(joined_text(r)), lower_of(query))
}

/// Each of the records has a score for the query exactly when it matches it.
pub open spec fn scores_decided(query: Seq<char>, records: Seq<BookmarkRecord>) -> bool {
    forall|i: int|
        0 <= i < records.len() ==> (record_score(query, #[trigger] records[i]) is Some
            <==> record_matches(query, records[i]))
}

/// Scores of every record of a sequence, by position.
pub open spec fn scores_of(query: Seq<char>, records: Seq<BookmarkRecord>) -> Seq<Option<i64>> {
    Seq::new(records.len(), |i: int| record_score(query, records[i]))
}

/// The records of a sequence of entries.
pub open spec fn entry_records(files: Seq<BookmarkFile>) -> Seq<BookmarkRecord> {
    Seq::new(files.len(), |i: int| files[i].content)
}

/// `a` comes before `b` in a result: higher score first, then lower index.
pub open spec fn ranks_before(a: (usize, i64), b: (usize, i64)) -> bool {
    a.1 > b.1 || (a.1 == b.1 && a.0 < b.0)
}

/// Every pair of a sequence is in result order.
pub open spec fn is_ranked(r: Seq<(usize, i64)>) -> bool {
    forall|i: int, j: int| 0 <= i < j < r.len() ==> ranks_before(#[trigger] r[i], #[trigger] r[j])
}

/// Every result names a scored position with its score.
pub open spec fn results_scored(r: Seq<(usize, i64)>, scores: Seq<Option<i64>>) -> bool {
    forall|k: int|
        0 <= k < r.len() ==> (#[trigger] r[k]).0 < scores.len() && scores[r[k].0 as int] == Some(
            r[k].1,
        )
}

/// Position `i` is named by some result.
pub open spec fn listed(r: Seq<(usize, i64)>, i: int) -> bool {
    exists|k: int| 0 <= k < r.len() && (#[trigger] r[k]).0 == i
}

/// `r` holds exactly the scored positions of `scores`, each with its score,
/// best score first and, among equal scores, lowest position first.
pub open spec fn is_ranking(r: Seq<(usize, i64)>, scores: Seq<Option<i64>>) -> bool {
    &&& is_ranked(r)
    &&& results_scored(r, scores)
    &&& forall|i: int| 0 <= i < scores.len() && (#[trigger] scores[i]) is Some ==> listed(r, i)
}

/// For two different pairs, one ranks before the other.
proof fn ranks_total(a: (usize, i64), b: (usize, i64))
    requires
        a != b,
    ensures
        ranks_before(a, b) || ranks_before(b, a),
{
}

proof fn push_contains(s: Seq<(usize, i64)>, v: (usize, i64))
    ensures
        forall|x: (usize, i64)| #[trigger] s.push(v).contains(x) <==> s.contains(x) || x == v,
{
    assert forall|x: (usize, i64)| #[trigger] s.push(v).contains(x) <==> s.contains(x) || x == v by {
        if s.contains(x) {
            let k = choose|k: int| 0 <= k < s.len() && s[k] == x;
            assert(s.push(v)[k] == x);
        }
        if x == v {
            assert(s.push(v)[s.len() as int] == x);
        }
        if s.push(v).contains(x) && x != v {
            let k = choose|k: int| 0 <= k < s.len() + 1 && s.push(v)[k] == x;
            assert(s[k] == x);
        }
    }
}

proof fn take_next_contains(s: Seq<(usize, i64)>, i: int)
    requires
        0 <= i < s.len(),
    ensures
        forall|x: (usize, i64)| #[trigger] s.take(i + 1).contains(x) <==> s.take(i).contains(x) || x == s[i],
{
    assert(s.take(i + 1) =~= s.take(i).push(s[i]));
    push_contains(s.take(i), s[i]);
}

/// Merges two ranked sequences with no pair in common.
fn merge(a: Vec<(usize, i64)>, b: Vec<(usize, i64)>) -> (r: Vec<(usize, i64)>)
    requires
        is_ranked(a@),
        is_ranked(b@),
        forall|i: int, j: int| 0 <= i < a@.len() && 0 <= j < b@.len() ==> a@[i] != b@[j],
    ensures
        is_ranked(r@),
        forall|x: (usize, i64)| #[trigger] r@.contains(x) <==> a@.contains(x) || b@.contains(x),
{
    let mut r: Vec<(usize, i64)> = Vec::new();
    let mut i: usize = 0;
    let mut j: usize = 0;
    while i < a.len() || j < b.len()
        invariant
            i <= a@.len(),
            j <= b@.len(),
            is_ranked(a@),
            is_ranked(b@),
            forall|p: int, q: int| 0 <= p < a@.len() && 0 <= q < b@.len() ==> a@[p] != b@[q],
            is_ranked(r@),
            forall|x: (usize, i64)| #[trigger]
                r@.contains(x) <==> a@.take(i as int).contains(x) || b@.take(j as int).contains(x),
            r@.len() > 0 && i < a@.len() ==> ranks_before(r@.last(), a@[i as int]),
            r@.len() > 0 && j < b@.len() ==> ranks_before(r@.last(), b@[j as int]),
        decreases a@.len() + b@.len() - i - j,
    {
        let ghost r0 = r@;
        let take_a = if i < a.len() && j < b.len() {
            let x = a[i];
            let y = b[j];
            proof {
                ranks_total(x, y);
            }
            x.1 > y.1 || (x.1 == y.1 && x.0 < y.0)
        } else {
            i < a.len()
        };
        if take_a {
            let x = a[i];
            r.push(x);
            proof {
                take_next_contains(a@, i as int);
                push_contains(r0, x);
                assert forall|p: int, q: int| 0 <= p < q < r@.len() implies ranks_before(
                    #[trigger] r@[p],
                    #[trigger] r@[q],
                ) by {
                    if q == r0.len() && p < r0.len() - 1 {
                        assert(ranks_before(r0[p], r0.last()));
                    }
                }
                if i + 1 < a@.len() {
                    assert(ranks_before(a@[i as int], a@[i + 1]));
                }
            }
            i += 1;
        } else {
            let y = b[j];
            r.push(y);
            proof {
                take_next_contains(b@, j as int);
                push_contains(r0, y);
                assert forall|p: int, q: int| 0 <= p < q < r@.len() implies ranks_before(
                    #[trigger] r@[p],
                    #[trigger] r@[q],
                ) by {
                    if q == r0.len() && p < r0.len() - 1 {
                        assert(ranks_before(r0[p], r0.last()));
                    }
                }
                if j + 1 < b@.len() {
                    assert(ranks_before(b@[j as int], b@[j + 1]));
                }
                if i < a@.len() {
                    assert(a@[i as int] != b@[j as int]);
                }
            }
            j += 1;
        }
    }
    assert(a@.take(a@.len() as int) =~= a@);
    assert(b@.take(b@.len() as int) =~= b@);
    r
}

/// No pair occurs twice.
pub open spec fn pairs_distinct(s: Seq<(usize, i64)>) -> bool {
    forall|i: int, j: int| 0 <= i < s.len() && 0 <= j < s.len() && i != j ==> s[i] != s[j]
}

/// Sorts `v[lo..hi]` into result order.
fn sort_range(v: &Vec<(usize, i64)>, lo: usize, hi: usize) -> (r: Vec<(usize, i64)>)
    requires
        lo <= hi <= v@.len(),
        pairs_distinct(v@),
    ensures
        is_ranked(r@),
        forall|x: (usize, i64)| #[trigger] r@.contains(x) <==> v@.subrange(lo as int, hi as int).contains(x),
    decreases hi - lo,
{
    if hi - lo == 0 {
        let r: Vec<(usize, i64)> = Vec::new();
        assert(v@.subrange(lo as int, hi as int) =~= Seq::<(usize, i64)>::empty());
        r
    } else if hi - lo == 1 {
        let mut r: Vec<(usize, i64)> = Vec::new();
        r.push(v[lo]);
        assert(v@.subrange(lo as int, hi as int) =~= r@);
        r
    } else {
        let mid = lo + (hi - lo) / 2;
        let a = sort_range(v, lo, mid);
        let b = sort_range(v, mid, hi);
        proof {
            assert forall|i: int, j: int| 0 <= i < a@.len() && 0 <= j < b@.len() implies a@[i] != b@[j] by {
                assert(a@.contains(a@[i]));
                assert(b@.contains(b@[j]));
                let sa = v@.subrange(lo as int, mid as int);
                let sb = v@.subrange(mid as int, hi as int);
                let p = choose|p: int| 0 <= p < sa.len() && sa[p] == a@[i];
                let q = choose|q: int| 0 <= q < sb.len() && sb[q] == b@[j];
                assert(v@[lo + p] == a@[i]);
                assert(v@[mid + q] == b@[j]);
            }
        }
        let r = merge(a, b);
        proof {
            let whole = v@.subrange(lo as int, hi as int);
            let sa = v@.subrange(lo as int, mid as int);
            let sb = v@.subrange(mid as int, hi as int);
            assert forall|x: (usize, i64)| #[trigger] whole.contains(x) <==> sa.contains(x) || sb.contains(x) by {
                if whole.contains(x) {
                    let k = choose|k: int| 0 <= k < whole.len() && whole[k] == x;
                    if k < mid - lo {
                        assert(sa[k] == x);
                    } else {
                        assert(sb[k - (mid - lo)] == x);
                    }
                }
                if sa.contains(x) {
                    let k = choose|k: int| 0 <= k < sa.len() && sa[k] == x;
                    assert(whole[k] == x);
                }
                if sb.contains(x) {
                    let k = choose|k: int| 0 <= k < sb.len() && sb[k] == x;
                    assert(whole[k + (mid - lo)] == x);
                }
            }
        }
        r
    }
}

/// Orders scored positions into a result: position `i` takes part when
/// `scores[i]` is `Some`.
pub fn rank_matches(scores: &Vec<Option<i64>>) -> (r: Vec<(usize, i64)>)
    ensures
        is_ranking(r@, scores@),
{
    let mut found: Vec<(usize, i64)> = Vec::new();
    let mut i: usize = 0;
    while i < scores.len()
        invariant
            i <= scores@.len(),
            forall|k: int| 0 <= k < found@.len() ==> (#[trigger] found@[k]).0 < i,
            forall|k: int|
                0 <= k < found@.len() ==> scores@[(#[trigger] found@[k]).0 as int] == Some(found@[k].1),
            forall|p: int, q: int| 0 <= p < q < found@.len() ==> (#[trigger] found@[p]).0 < (#[trigger] found@[q]).0,
            forall|j: int|
                0 <= j < i && (#[trigger] scores@[j]) is Some ==> found@.contains((j as usize, scores@[j]->0)),
        decreases scores@.len() - i,
    {
        if let Some(s) = scores[i] {
            let ghost f0 = found@;
            found.push((i, s));
            proof {
                push_contains(f0, (i, s));
            }
        }
        i += 1;
    }
    proof {
        assert forall|p: int, q: int| 0 <= p < found@.len() && 0 <= q < found@.len() && p != q implies found@[p] != found@[q] by {
            if p < q {
                assert(found@[p].0 < found@[q].0);
            } else {
                assert(found@[q].0 < found@[p].0);
            }
        }
    }
    let r = sort_range(&found, 0, found.len());
    proof {
        assert(found@.subrange(0, found@.len() as int) =~= found@);
        assert forall|k: int| 0 <= k < r@.len() implies (#[trigger] r@[k]).0 < scores@.len() && scores@[r@[k].0 as int] == Some(r@[k].1) by {
            assert(r@.contains(r@[k]));
            let p = choose|p: int| 0 <= p < found@.len() && found@[p] == r@[k];
            assert(found@[p].0 < scores@.len());
        }
        assert forall|j: int| 0 <= j < scores@.len() && (#[trigger] scores@[j]) is Some implies listed(r@, j) by {
            let x = (j as usize, scores@[j]->0);
            assert(found@.contains(x));
            assert(r@.contains(x));
            let k = choose|k: int| 0 <= k < r@.len() && r@[k] == x;
            assert(r@[k].0 == j);
        }
    }
    r
}

/// Ranks `records` against `query`: the position and score of each record
/// that matches, best first, ties by position. An empty query matches nothing.
pub fn search(query: &str, records: &Vec<BookmarkRecord>) -> (r: Vec<(usize, i64)>)
    ensures
        is_ranking(r@, scores_of(query@, records@)),
        scores_decided(query@, records@),
{
    let mut scores: Vec<Option<i64>> = Vec::new();
    if !query.is_empty() {
        let pattern = to_lower(query);
        let mut i: usize = 0;
        while i < records.len()
            invariant
                query@.len() > 0,
                pattern@ == lower_of(query@),
                i <= records@.len(),
                scores@ =~= scores_of(query@, records@).take(i as int),
                forall|j: int|
                    0 <= j < i ==> (record_score(query@, #[trigger] records@[j]) is Some
                        <==> record_matches(query@, records@[j])),
            decreases records@.len() - i,
        {
            let text = records[i].fuzzy_string();
            let s = skim_match(text.as_str(), pattern.as_str());
            scores.push(s);
            i += 1;
        }
    } else {
        let mut i: usize = 0;
        while i < records.len()
            invariant
                query@.len() == 0,
                i <= records@.len(),
                scores@ =~= scores_of(query@, records@).take(i as int),
                forall|j: int|
                    0 <= j < i ==> (record_score(query@, #[trigger] records@[j]) is Some
                        <==> record_matches(query@, records@[j])),
            decreases records@.len() - i,
        {
            scores.push(None);
            i += 1;
        }
    }
    assert(scores@ =~= scores_of(query@, records@));
    rank_matches(&scores)
}

/// Ranks the records of loaded entries against `query`, as `search` does.
pub fn search_entries(query: &str, files: &Vec<BookmarkFile>) -> (r: Vec<(usize, i64)>)
    ensures
        is_ranking(r@, scores_of(query@, entry_records(files@))),
        scores_decided(query@, entry_records(files@)),
{
    let ghost records = entry_records(files@);
    let mut scores: Vec<Option<i64>> = Vec::new();
    let empty = query.is_empty();
    let pattern = if empty {
        String::new()
    } else {
        to_lower(query)
    };
    let mut i: usize = 0;
    while i < files.len()
        invariant
            empty == (query@.len() == 0),
            !empty ==> pattern@ == lower_of(query@),
            records == entry_records(files@),
            i <= files@.len(),
            scores@ =~= scores_of(query@, records).take(i as int),
            forall|j: int|
                0 <= j < i ==> (record_score(query@, #[trigger] records[j]) is Some
                    <==> record_matches(query@, records[j])),
        decreases files@.len() - i,
    {
        if empty {
            scores.push(None);
        } else {
            let text = files[i].content.fuzzy_string();
            let s = skim_match(text.as_str(), pattern.as_str());
            scores.push(s);
        }
        i += 1;
    }
    assert(scores@ =~= scores_of(query@, records));
    rank_matches(&scores)
}

/// Along a search result the scores never increase, and results with equal
/// scores are in ascending record order.
pub proof fn search_result_order(query: Seq<char>, records: Seq<BookmarkRecord>, r: Seq<(usize, i64)>)
    requires
        is_ranking(r, scores_of(query, records)),
    ensures
        forall|i: int, j: int| 0 <= i < j < r.len() ==> (#[trigger] r[i]).1 >= (#[trigger] r[j]).1,
        forall|i: int, j: int|
            0 <= i < j < r.len() && (#[trigger] r[i]).1 == (#[trigger] r[j]).1 ==> r[i].0 < r[j].0,
{
    assert forall|i: int, j: int| 0 <= i < j < r.len() implies (#[trigger] r[i]).1 >= (#[trigger] r[j]).1 by {
        assert(ranks_before(r[i], r[j]));
    }
    assert forall|i: int, j: int|
        0 <= i < j < r.len() && (#[trigger] r[i]).1 == (#[trigger] r[j]).1 implies r[i].0 < r[j].0 by {
        assert(ranks_before(r[i], r[j]));
    }
}

/// The empty query is no wildcard: it matches no record, so an empty result
/// is all that a caller gets from it.
pub proof fn empty_query_matches_nothing(records: Seq<BookmarkRecord>, r: Seq<(usize, i64)>)
    requires
        is_ranking(r, scores_of(Seq::empty(), records)),
    ensures
        r.len() == 0,
{
    if r.len() > 0 {
        assert(scores_of(Seq::empty(), records)[r[0].0 as int] == Some(r[0].1));
    }
}

/// A ranking is determined by the scores: two rankings of the same scores
/// are equal.
pub proof fn ranking_unique(r1: Seq<(usize, i64)>, r2: Seq<(usize, i64)>, scores: Seq<Option<i64>>)
    requires
        is_ranking(r1, scores),
        is_ranking(r2, scores),
    ensures
        r1 == r2,
    decreases r1.len() + r2.len(),
{
    if r1.len() == 0 {
        if r2.len() > 0 {
            assert(scores[r2[0].0 as int] is Some);
            assert(listed(r1, r2[0].0 as int));
        }
        assert(r1 =~= r2);
    } else if r2.len() == 0 {
        assert(scores[r1[0].0 as int] is Some);
        assert(listed(r2, r1[0].0 as int));
    } else {
        let a = r1[0];
        let b = r2[0];
        assert(scores[a.0 as int] is Some);
        assert(scores[b.0 as int] is Some);
        assert(listed(r2, a.0 as int));
        assert(listed(r1, b.0 as int));
        let ka = choose|k: int| 0 <= k < r2.len() && (#[trigger] r2[k]).0 == a.0;
        let kb = choose|k: int| 0 <= k < r1.len() && (#[trigger] r1[k]).0 == b.0;
        assert(r2[ka] == a);
        assert(r1[kb] == b);
        if ka > 0 {
            assert(ranks_before(b, a));
            if kb > 0 {
                assert(ranks_before(a, b));
            }
        }
        if kb > 0 {
            assert(ranks_before(a, b));
        }
        assert(a == b);
        let scores2 = scores.update(a.0 as int, None);
        let t1 = r1.drop_first();
        let t2 = r2.drop_first();
        assert forall|k: int| 0 <= k < t1.len() implies (#[trigger] t1[k]).0 < scores2.len() && scores2[t1[k].0 as int] == Some(t1[k].1) by {
            assert(ranks_before(r1[0], r1[k + 1]));
        }
        assert forall|k: int| 0 <= k < t2.len() implies (#[trigger] t2[k]).0 < scores2.len() && scores2[t2[k].0 as int] == Some(t2[k].1) by {
            assert(ranks_before(r2[0], r2[k + 1]));
        }
        assert forall|i: int| 0 <= i < scores2.len() && (#[trigger] scores2[i]) is Some implies listed(t1, i) by {
            assert(scores[i] is Some);
            let k = choose|k: int| 0 <= k < r1.len() && (#[trigger] r1[k]).0 == i;
            assert(t1[k - 1].0 == i);
        }
        assert forall|i: int| 0 <= i < scores2.len() && (#[trigger] scores2[i]) is Some implies listed(t2, i) by {
            assert(scores[i] is Some);
            let k = choose|k: int| 0 <= k < r2.len() && (#[trigger] r2[k]).0 == i;
            assert(t2[k - 1].0 == i);
        }
        assert forall|i: int, j: int| 0 <= i < j < t1.len() implies ranks_before(#[trigger] t1[i], #[trigger] t1[j]) by {
            assert(ranks_before(r1[i + 1], r1[j + 1]));
        }
        assert forall|i: int, j: int| 0 <= i < j < t2.len() implies ranks_before(#[trigger] t2[i], #[trigger] t2[j]) by {
            assert(ranks_before(r2[i + 1], r2[j + 1]));
        }
        ranking_unique(t1, t2, scores2);
        assert(r1 =~= seq![a] + t1);
        assert(r2 =~= seq![b] + t2);
    }
}

/// The result of searching the records of `items` for `query`.
pub open spec fn search_results(query: Seq<char>, items: Seq<BookmarkFile>) -> Seq<(usize, i64)> {
    choose|r: Seq<(usize, i64)>| is_ranking(r, scores_of(query, entry_records(items)))
}

/// A ranking of the entries' scores is the search result.
pub proof fn ranking_is_search_results(r: Seq<(usize, i64)>, query: Seq<char>, items: Seq<BookmarkFile>)
    requires
        is_ranking(r, scores_of(query, entry_records(items))),
    ensures
        r == search_results(query, items),
        forall|k: int| 0 <= k < r.len() ==> (#[trigger] r[k]).0 < items.len(),
{
    let c = search_results(query, items);
    ranking_unique(r, c, scores_of(query, entry_records(items)));
    assert forall|k: int| 0 <= k < r.len() implies (#[trigger] r[k]).0 < items.len() by {
    }
}

/// Positions named by a ranking are pairwise distinct.
pub proof fn ranking_positions_distinct(r: Seq<(usize, i64)>, scores: Seq<Option<i64>>)
    requires
        is_ranking(r, scores),
    ensures
        forall|i: int, j: int| 0 <= i < r.len() && 0 <= j < r.len() && i != j ==> (#[trigger] r[i]).0 != (#[trigger] r[j]).0,
{
    assert forall|i: int, j: int| 0 <= i < r.len() && 0 <= j < r.len() && i != j implies (#[trigger] r[i]).0 != (#[trigger] r[j]).0 by {
        if r[i].0 == r[j].0 {
            assert(scores[r[i].0 as int] == Some(r[i].1));
            assert(scores[r[j].0 as int] == Some(r[j].1));
            if i < j {
                assert(ranks_before(r[i], r[j]));
            } else {
                assert(ranks_before(r[j], r[i]));
            }
        }
    }
}

} // verus!
