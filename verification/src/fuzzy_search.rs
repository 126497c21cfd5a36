//! Shared fuzzy matching utilities for object-store-backed content.

use vstd::prelude::*;

verus! {

use vstd::string::StrSliceExecFns;
use vstd::utf8::encode_utf8;

use crate::s3_index::S3Entry;
use crate::strutil::bytes_eq_ignore_ascii_case;
use crate::strutil::eq_ignore_ascii_case_spec;
use crate::textnorm::trim;
use crate::textnorm::trim_spec;

/// The score that the skim matcher assigns to a choice for a pattern; it
/// depends on the two strings alone.
pub uninterp spec fn skim_score(choice: Seq<char>, pattern: Seq<char>) -> Option<i64>;

/// Relies on fuzzy_matcher's SkimMatcherV2 with its default configuration:
/// fuzzy_match scores a choice against a pattern, or returns None when the
/// pattern does not match at all.
#[verifier::external_body]
fn skim_match(choice: &str, pattern: &str) -> (r: Option<i64>)
    ensures
        r == skim_score(choice@, pattern@),
{
    let matcher = fuzzy_matcher::skim::SkimMatcherV2::default();
    fuzzy_matcher::FuzzyMatcher::fuzzy_match(&matcher, choice, pattern)
}

/// The skim score of an entry's name.
pub open spec fn score_of(e: S3Entry, q: Seq<char>) -> Option<i64> {
    skim_score(e.name@, q)
}

/// The UTF-8 bytes of a string value.
pub open spec fn utf8_of(s: Seq<char>) -> Seq<u8> {
    encode_utf8(s)
}

/// The position of the first entry whose name equals the query up to ASCII
/// case, searching from `i` on.
pub open spec fn first_ci_match_from(entries: Seq<S3Entry>, q: Seq<u8>, i: int) -> Option<int>
    decreases entries.len() - i
        when 0 <= i <= entries.len()
{
    if i < 0 || i >= entries.len() {
        None
    } else if eq_ignore_ascii_case_spec(utf8_of(entries[i].name@), q) {
        Some(i)
    } else {
        first_ci_match_from(entries, q, i + 1)
    }
}

/// Find an exact (case-insensitive) match by entry name.  The query is
/// trimmed first; an all-whitespace query matches nothing.
pub fn find_exact<'a>(entries: &'a Vec<S3Entry>, query: &str) -> (r: Option<&'a S3Entry>)
    ensures
        ({
            let q = utf8_of(trim_spec(query@));
            match r {
                None => trim_spec(query@).len() == 0 || first_ci_match_from(entries@, q, 0)
                    is None,
                Some(e) => {
                    &&& trim_spec(query@).len() > 0
                    &&& first_ci_match_from(entries@, q, 0) matches Some(i) && *e == entries@[i]
                },
            }
        }),
{
    let trimmed = trim(query);
    if trimmed.is_empty() {
        return None;
    }
    let qbytes = trimmed.as_bytes_vec();
    let n = entries.len();
    for i in 0..n
        invariant
            n == entries@.len(),
            trim_spec(query@).len() > 0,
            qbytes@ == utf8_of(trim_spec(query@)),
            first_ci_match_from(entries@, qbytes@, 0) == first_ci_match_from(
                entries@,
                qbytes@,
                i as int,
            ),
    {
        let name_bytes = entries[i].name.as_str().as_bytes_vec();
        if bytes_eq_ignore_ascii_case(&name_bytes, &qbytes) {
            proof {
                assert(first_ci_match_from(entries@, qbytes@, i as int) == Some(i as int));
            }
            return Some(&entries[i]);
        }
        proof {
            assert(first_ci_match_from(entries@, qbytes@, i as int) == first_ci_match_from(
                entries@,
                qbytes@,
                i + 1,
            ));
        }
    }
    None
}

/// Find the best fuzzy match for a query: among the entries the matcher
/// scores, the first one attaining the highest score.  The query is trimmed
/// first; an all-whitespace query matches nothing.
pub fn find_best_fuzzy<'a>(entries: &'a Vec<S3Entry>, query: &str) -> (r: Option<&'a S3Entry>)
    ensures
        ({
            let q = trim_spec(query@);
            match r {
                None => q.len() == 0 || forall|j: int|
                    0 <= j < entries@.len() ==> score_of(#[trigger] entries@[j], q) is None,
                Some(e) => {
                    &&& q.len() > 0
                    &&& exists|i: int|
                        {
                            &&& 0 <= i < entries@.len()
                            &&& *e == entries@[i]
                            &&& (#[trigger] score_of(entries@[i], q)) matches Some(s) && (forall|
                                j: int,
                            |
                                0 <= j < entries@.len() ==> ((#[trigger] score_of(entries@[j], q))
                                    matches Some(t) ==> t <= s)) && (forall|j: int|
                                0 <= j < i ==> ((#[trigger] score_of(entries@[j], q))
                                    matches Some(t) ==> t < s))
                        }
                },
            }
        }),
{
    let trimmed = trim(query);
    if trimmed.is_empty() {
        return None;
    }
    let n = entries.len();
    let mut best: Option<(usize, i64)> = None;
    for j in 0..n
        invariant
            n == entries@.len(),
            trimmed@ == trim_spec(query@),
            match best {
                None => forall|k: int|
                    0 <= k < j ==> score_of(#[trigger] entries@[k], trimmed@) is None,
                Some((bi, bs)) => 0 <= bi < j && j <= n && score_of(entries@[bi as int], trimmed@)
                    == Some(bs) && (forall|k: int|
                    0 <= k < j ==> ((#[trigger] score_of(entries@[k], trimmed@)) matches Some(t)
                        ==> t <= bs)) && (forall|k: int|
                    0 <= k < bi ==> ((#[trigger] score_of(entries@[k], trimmed@)) matches Some(t)
                        ==> t < bs)),
            },
    {
        if let Some(score) = skim_match(entries[j].name.as_str(), trimmed) {
            let is_better = match best {
                None => true,
                Some((_, best_score)) => score > best_score,
            };
            if is_better {
                best = Some((j, score));
            }
        }
    }
    match best {
        None => None,
        Some((bi, _)) => Some(&entries[bi]),
    }
}

/// Strict lexicographic order on byte sequences; on UTF-8 encodings it is
/// the order of the underlying strings.
pub open spec fn lex_lt(a: Seq<u8>, b: Seq<u8>) -> bool
    decreases a.len(),
{
    if b.len() == 0 {
        false
    } else if a.len() == 0 {
        true
    } else if a[0] < b[0] {
        true
    } else if a[0] > b[0] {
        false
    } else {
        lex_lt(a.drop_first(), b.drop_first())
    }
}

/// Decides `lex_lt` on byte vectors.
pub fn lex_lt_bytes(a: &Vec<u8>, b: &Vec<u8>) -> (r: bool)
    ensures
        r == lex_lt(a@, b@),
{
    let mut i: usize = 0;
    let al = a.len();
    let bl = b.len();
    proof {
        assert(a@.skip(0) =~= a@);
        assert(b@.skip(0) =~= b@);
    }
    loop
        invariant
            al == a@.len(),
            bl == b@.len(),
            i <= al,
            i <= bl,
            lex_lt(a@, b@) == lex_lt(a@.skip(i as int), b@.skip(i as int)),
        ensures
            lex_lt(a@, b@) == ({
                if i >= bl {
                    false
                } else if i >= al {
                    true
                } else {
                    a@[i as int] < b@[i as int]
                }
            }),
        decreases al - i,
    {
        if i >= bl {
            proof {
                assert(b@.skip(i as int).len() == 0);
            }
            break ;
        }
        if i >= al {
            proof {
                assert(a@.skip(i as int).len() == 0);
                assert(b@.skip(i as int).len() > 0);
            }
            break ;
        }
        let ca = a[i];
        let cb = b[i];
        proof {
            let ar = a@.skip(i as int);
            let br = b@.skip(i as int);
            assert(ar[0] == a@[i as int]);
            assert(br[0] == b@[i as int]);
            assert(ar.drop_first() =~= a@.skip(i + 1));
            assert(br.drop_first() =~= b@.skip(i + 1));
        }
        if ca < cb {
            break ;
        }
        if ca > cb {
            break ;
        }
        i = i + 1;
    }
    if i >= bl {
        false
    } else if i >= al {
        true
    } else {
        a[i] < b[i]
    }
}

/// The order is irreflexive.
pub proof fn lemma_lex_lt_irrefl(a: Seq<u8>)
    ensures
        !lex_lt(a, a),
    decreases a.len(),
{
    if a.len() > 0 {
        lemma_lex_lt_irrefl(a.drop_first());
    }
}

/// The order is transitive.
pub proof fn lemma_lex_lt_trans(a: Seq<u8>, b: Seq<u8>, c: Seq<u8>)
    requires
        lex_lt(a, b),
        lex_lt(b, c),
    ensures
        lex_lt(a, c),
    decreases a.len(),
{
    if a.len() > 0 && b.len() > 0 && c.len() > 0 && a[0] == b[0] && b[0] == c[0] {
        lemma_lex_lt_trans(a.drop_first(), b.drop_first(), c.drop_first());
    }
}

/// Any two sequences are ordered or equal.
pub proof fn lemma_lex_lt_connex(a: Seq<u8>, b: Seq<u8>)
    ensures
        lex_lt(a, b) || lex_lt(b, a) || a == b,
    decreases a.len(),
{
    if a.len() > 0 && b.len() > 0 && a[0] == b[0] {
        lemma_lex_lt_connex(a.drop_first(), b.drop_first());
        if a.drop_first() == b.drop_first() {
            assert(a.len() == b.len());
            assert forall|k: int| 0 <= k < a.len() implies a[k] == b[k] by {
                if k > 0 {
                    assert(a.drop_first()[k - 1] == b.drop_first()[k - 1]);
                }
            }
            assert(a =~= b);
        }
    }
}

/// Whether entry `a` may stand before entry `b` in a ranking: both score,
/// and `a` has the higher score, or an equal score and a name that is not
/// lexicographically after `b`'s.
pub open spec fn ranked_before_eq(a: S3Entry, b: S3Entry, q: Seq<char>) -> bool {
    match (score_of(a, q), score_of(b, q)) {
        (Some(sa), Some(sb)) => sa > sb || (sa == sb && !lex_lt(
            utf8_of(b.name@),
            utf8_of(a.name@),
        )),
        _ => false,
    }
}

/// The ranking order is transitive.
pub proof fn lemma_ranked_trans(a: S3Entry, b: S3Entry, c: S3Entry, q: Seq<char>)
    requires
        ranked_before_eq(a, b, q),
        ranked_before_eq(b, c, q),
    ensures
        ranked_before_eq(a, c, q),
{
    let sa = score_of(a, q)->0;
    let sb = score_of(b, q)->0;
    let sc = score_of(c, q)->0;
    if sa == sb && sb == sc {
        if lex_lt(utf8_of(c.name@), utf8_of(a.name@)) {
            lemma_lex_lt_connex(utf8_of(b.name@), utf8_of(a.name@));
            if utf8_of(b.name@) == utf8_of(a.name@) {
            } else {
                lemma_lex_lt_trans(utf8_of(c.name@), utf8_of(a.name@), utf8_of(b.name@));
            }
        }
    }
}

/// Scans for the best not-yet-used scoring entry: highest score, ties broken
/// by name order, then by position.
fn pick_best_unused(entries: &Vec<S3Entry>, used: &Vec<bool>, pattern: &str) -> (r: Option<
    (usize, i64),
>)
    requires
        used@.len() == entries@.len(),
    ensures
        match r {
            None => forall|k: int|
                0 <= k < entries@.len() && !used@[k] ==> score_of(
                    #[trigger] entries@[k],
                    pattern@,
                ) is None,
            Some((bi, bs)) => {
                &&& 0 <= bi < entries@.len()
                &&& !used@[bi as int]
                &&& score_of(entries@[bi as int], pattern@) == Some(bs)
                &&& forall|k: int|
                    (0 <= k < entries@.len() && !used@[k] && k != bi && score_of(
                        #[trigger] entries@[k],
                        pattern@,
                    ) is Some) ==> ranked_before_eq(entries@[bi as int], entries@[k], pattern@)
            },
        },
{
    let n = entries.len();
    let mut best: Option<(usize, i64)> = None;
    for j in 0..n
        invariant
            n == entries@.len(),
            used@.len() == n,
            match best {
                None => forall|k: int|
                    0 <= k < j && !used@[k] ==> score_of(#[trigger] entries@[k], pattern@)
                        is None,
                Some((bi, bs)) => 0 <= bi < j && j <= n && !used@[bi as int] && score_of(
                    entries@[bi as int],
                    pattern@,
                ) == Some(bs) && forall|k: int|
                    (0 <= k < j && !used@[k] && k != bi && score_of(
                        #[trigger] entries@[k],
                        pattern@,
                    ) is Some) ==> ranked_before_eq(entries@[bi as int], entries@[k], pattern@),
            },
    {
        if !used[j] {
            if let Some(score) = skim_match(entries[j].name.as_str(), pattern) {
                let is_better = match best {
                    None => true,
                    Some((bi, best_score)) => {
                        if score > best_score {
                            true
                        } else if score == best_score {
                            let nj = entries[j].name.as_str().as_bytes_vec();
                            let nb = entries[bi].name.as_str().as_bytes_vec();
                            lex_lt_bytes(&nj, &nb)
                        } else {
                            false
                        }
                    },
                };
                if is_better {
                    proof {
                        if best is Some {
                            let bp = best->0;
                            let bi = bp.0 as int;
                            let bs = bp.1;
                            let bn = utf8_of(entries@[bi].name@);
                            let jn = utf8_of(entries@[j as int].name@);
                            if score == bs {
                                lemma_lex_lt_irrefl(jn);
                                assert forall|k: int|
                                    (0 <= k < j && !used@[k] && k != bi && k != j && score_of(
                                        #[trigger] entries@[k],
                                        pattern@,
                                    ) is Some) implies ranked_before_eq(
                                    entries@[j as int],
                                    entries@[k],
                                    pattern@,
                                ) by {
                                    let kn = utf8_of(entries@[k].name@);
                                    if score_of(entries@[k], pattern@)->0 == score {
                                        if lex_lt(kn, jn) {
                                            lemma_lex_lt_trans(kn, jn, bn);
                                        }
                                    }
                                }
                                if lex_lt(bn, jn) {
                                    lemma_lex_lt_trans(bn, jn, bn);
                                    lemma_lex_lt_irrefl(bn);
                                }
                            }
                        }
                    }
                    best = Some((j, score));
                }
            }
        }
    }
    best
}

/// Find the best matching entries for a query, ordered by score (best
/// first), ties broken by name.  At most `limit` entries come back; when
/// fewer come back, every entry the matcher scores is among them, and any
/// scoring entry left out ranks no better than the last one returned.
pub fn search_fuzzy<'a>(entries: &'a Vec<S3Entry>, query: &str, limit: usize) -> (r: Vec<
    &'a S3Entry,
>)
    ensures
        ({
            let q = trim_spec(query@);
            &&& r@.len() <= limit
            &&& (q.len() == 0 || limit == 0) ==> r@.len() == 0
            &&& forall|k: int|
                0 <= k < r@.len() ==> (exists|j: int|
                    0 <= j < entries@.len() && *(#[trigger] r@[k]) == entries@[j]) && score_of(
                    *r@[k],
                    q,
                ) is Some
            &&& forall|k1: int, k2: int|
                #![trigger r@[k1], r@[k2]]
                0 <= k1 < k2 < r@.len() ==> ranked_before_eq(*r@[k1], *r@[k2], q)
            &&& (q.len() > 0 && limit > 0 && r@.len() < limit) ==> forall|j: int|
                0 <= j < entries@.len() && score_of(#[trigger] entries@[j], q) is Some
                    ==> exists|k: int| 0 <= k < r@.len() && *(#[trigger] r@[k]) == entries@[j]
            &&& (q.len() > 0 && limit > 0) ==> forall|j: int|
                (0 <= j < entries@.len() && score_of(#[trigger] entries@[j], q) is Some && !(
                exists|k: int| 0 <= k < r@.len() && *(#[trigger] r@[k]) == entries@[j]))
                    ==> r@.len() > 0 && ranked_before_eq(*r@[r@.len() - 1], entries@[j], q)
        }),
{
    let trimmed = trim(query);
    let mut out: Vec<&'a S3Entry> = Vec::new();
    if trimmed.is_empty() || limit == 0 {
        return out;
    }
    let n = entries.len();
    let mut used: Vec<bool> = Vec::new();
    for j in 0..n
        invariant
            used@.len() == j,
            forall|k: int| 0 <= k < j ==> used@[k] == false,
    {
        used.push(false);
    }
    let ghost mut idxs: Seq<int> = Seq::empty();
    while out.len() < limit
        invariant
            n == entries@.len(),
            trimmed@ == trim_spec(query@),
            used@.len() == n,
            out@.len() <= limit,
            limit > 0,
            idxs.len() == out@.len(),
            forall|k: int|
                0 <= k < idxs.len() ==> 0 <= #[trigger] idxs[k] < n && *out@[k]
                    == entries@[idxs[k]] && score_of(entries@[idxs[k]], trimmed@) is Some,
            forall|j: int| 0 <= j < n ==> (used@[j] <==> idxs.contains(j)),
            forall|k1: int, k2: int|
                #![trigger out@[k1], out@[k2]]
                0 <= k1 < k2 < out@.len() ==> ranked_before_eq(*out@[k1], *out@[k2], trimmed@),
            forall|j: int|
                (0 <= j < n && !used@[j] && score_of(#[trigger] entries@[j], trimmed@) is Some
                    && out@.len() > 0) ==> ranked_before_eq(
                    *out@[out@.len() - 1],
                    entries@[j],
                    trimmed@,
                ),
        ensures
            n == entries@.len(),
            trimmed@ == trim_spec(query@),
            used@.len() == n,
            out@.len() <= limit,
            idxs.len() == out@.len(),
            forall|k: int|
                0 <= k < idxs.len() ==> 0 <= #[trigger] idxs[k] < n && *out@[k]
                    == entries@[idxs[k]] && score_of(entries@[idxs[k]], trimmed@) is Some,
            forall|j: int| 0 <= j < n ==> (used@[j] <==> idxs.contains(j)),
            forall|k1: int, k2: int|
                #![trigger out@[k1], out@[k2]]
                0 <= k1 < k2 < out@.len() ==> ranked_before_eq(*out@[k1], *out@[k2], trimmed@),
            forall|j: int|
                (0 <= j < n && !used@[j] && score_of(#[trigger] entries@[j], trimmed@) is Some
                    && out@.len() > 0) ==> ranked_before_eq(
                    *out@[out@.len() - 1],
                    entries@[j],
                    trimmed@,
                ),
            out@.len() == limit || (forall|j: int|
                0 <= j < n && !used@[j] ==> score_of(#[trigger] entries@[j], trimmed@) is None),
        decreases limit - out.len(),
    {
        let best = pick_best_unused(entries, &used, trimmed);
        match best {
            None => {
                break ;
            },
            Some((bj, _)) => {
                let ghost old_out = out@;
                let ghost old_used = used@;
                used.set(bj, true);
                out.push(&entries[bj]);
                proof {
                    let old_idxs = idxs;
                    idxs = idxs.push(bj as int);
                    assert(idxs.drop_last() =~= old_idxs);
                    assert(forall|k: int|
                        0 <= k < old_out.len() ==> *(#[trigger] out@[k]) == *old_out[k]);
                    assert(*out@[out@.len() - 1] == entries@[bj as int]);
                    assert forall|j: int| 0 <= j < n implies (used@[j] <==> idxs.contains(
                        j,
                    )) by {
                        if j == bj {
                            assert(idxs[idxs.len() - 1] == j);
                            assert(idxs.contains(j));
                        } else {
                            if idxs.contains(j) {
                                let w = choose|w: int| 0 <= w < idxs.len() && idxs[w] == j;
                                assert(w < idxs.len() - 1);
                                assert(old_idxs[w] == j);
                                assert(old_idxs.contains(j));
                            }
                            if old_idxs.contains(j) {
                                let w = choose|w: int|
                                    0 <= w < old_idxs.len() && old_idxs[w] == j;
                                assert(idxs[w] == j);
                                assert(idxs.contains(j));
                            }
                        }
                    }
                    let last = entries@[bj as int];
                    assert forall|k1: int, k2: int|
                        #![trigger out@[k1], out@[k2]]
                        0 <= k1 < k2 < out@.len() implies ranked_before_eq(
                        *out@[k1],
                        *out@[k2],
                        trimmed@,
                    ) by {
                        if k2 == out@.len() - 1 && old_out.len() > 0 {
                            let prev = *old_out[old_out.len() - 1];
                            assert(ranked_before_eq(prev, last, trimmed@));
                            if k1 < old_out.len() - 1 {
                                lemma_ranked_trans(*old_out[k1], prev, last, trimmed@);
                            }
                        }
                    }
                }
            },
        }
    }
    proof {
        assert forall|k: int| 0 <= k < out@.len() implies (exists|j: int|
            0 <= j < entries@.len() && *(#[trigger] out@[k]) == entries@[j]) && score_of(
            *out@[k],
            trimmed@,
        ) is Some by {
            let j = idxs[k];
            assert(0 <= j < entries@.len() && *out@[k] == entries@[j]);
        }
        if out@.len() < limit {
            assert forall|j: int|
                0 <= j < entries@.len() && score_of(#[trigger] entries@[j], trimmed@)
                    is Some implies exists|k: int|
                0 <= k < out@.len() && *(#[trigger] out@[k]) == entries@[j] by {
                assert(used@[j]);
                assert(idxs.contains(j));
                let k = choose|k: int| 0 <= k < idxs.len() && idxs[k] == j;
                assert(*out@[k] == entries@[j]);
            }
        }
        assert forall|j: int|
            (0 <= j < entries@.len() && score_of(#[trigger] entries@[j], trimmed@) is Some && !(
            exists|k: int|
                0 <= k < out@.len() && *(#[trigger] out@[k]) == entries@[j])) implies out@.len()
            > 0 && ranked_before_eq(*out@[out@.len() - 1], entries@[j], trimmed@) by {
            if used@[j] {
                assert(idxs.contains(j));
                let k = choose|k: int| 0 <= k < idxs.len() && idxs[k] == j;
                assert(*out@[k] == entries@[j]);
            }
            assert(!used@[j]);
            if out@.len() == 0 {
                assert(out@.len() < limit);
            }
        }
    }
    out
}

} // verus!
