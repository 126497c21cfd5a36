//! Levenshtein edit distance, with a verified dynamic program, and the
//! integer form of the normalized-similarity threshold test used by the
//! fuzzy matchers.

use vstd::prelude::*;

verus! {

use crate::strutil::str_to_chars;

/// The least of three naturals.
pub open spec fn min3(a: nat, b: nat, c: nat) -> nat {
    if a <= b && a <= c {
        a
    } else if b <= c {
        b
    } else {
        c
    }
}

/// The Levenshtein edit distance between two character sequences: the least
/// number of single-character insertions, deletions and substitutions that
/// turns one into the other.
pub open spec fn edit_dist(a: Seq<char>, b: Seq<char>) -> nat
    decreases a.len() + b.len(),
{
    if a.len() == 0 {
        b.len()
    } else if b.len() == 0 {
        a.len()
    } else {
        let cost: nat = if a.last() == b.last() {
            0
        } else {
            1
        };
        min3(
            edit_dist(a.drop_last(), b) + 1,
            edit_dist(a, b.drop_last()) + 1,
            edit_dist(a.drop_last(), b.drop_last()) + cost,
        )
    }
}

/// The distance never exceeds the longer length.
pub proof fn lemma_edit_dist_le_max(a: Seq<char>, b: Seq<char>)
    ensures
        edit_dist(a, b) <= a.len() || edit_dist(a, b) <= b.len(),
        edit_dist(a, b) <= a.len() + b.len(),
    decreases a.len() + b.len(),
{
    if a.len() == 0 {
    } else if b.len() == 0 {
    } else {
        lemma_edit_dist_le_max(a.drop_last(), b);
        lemma_edit_dist_le_max(a, b.drop_last());
        lemma_edit_dist_le_max(a.drop_last(), b.drop_last());
    }
}

fn min3_exec(a: u128, b: u128, c: u128) -> (r: u128)
    ensures
        r == min3(a as nat, b as nat, c as nat),
{
    if a <= b && a <= c {
        a
    } else if b <= c {
        b
    } else {
        c
    }
}

/// The edit distance between two character vectors, by the classical
/// two-row dynamic program.
pub fn levenshtein_chars(a: &Vec<char>, b: &Vec<char>) -> (d: usize)
    ensures
        d == edit_dist(a@, b@),
{
    let al = a.len();
    let bl = b.len();
    if al == 0 {
        return bl;
    }
    if bl == 0 {
        return al;
    }

    let mut prev: Vec<u128> = Vec::new();
    prev.push(0);
    proof {
        assert(a@.subrange(0, 0) =~= Seq::<char>::empty());
        assert(b@.subrange(0, 0) =~= Seq::<char>::empty());
    }
    for j in 0..bl
        invariant
            prev.len() == j + 1,
            bl == b@.len(),
            forall|k: int|
                0 <= k <= j ==> prev@[k] == edit_dist(a@.subrange(0, 0), b@.subrange(0, k)),
    {
        prev.push((j as u128) + 1);
        proof {
            assert(a@.subrange(0, 0) =~= Seq::<char>::empty());
            assert(b@.subrange(0, j + 1).len() == j + 1);
        }
    }

    for i in 0..al
        invariant
            al == a@.len(),
            bl == b@.len(),
            al > 0,
            bl > 0,
            prev.len() == bl + 1,
            forall|k: int|
                0 <= k <= bl ==> prev@[k] == edit_dist(
                    a@.subrange(0, i as int),
                    b@.subrange(0, k),
                ),
    {
        let mut curr: Vec<u128> = Vec::new();
        curr.push((i + 1) as u128);
        proof {
            assert(b@.subrange(0, 0) =~= Seq::<char>::empty());
            assert(a@.subrange(0, i + 1).len() == i + 1);
        }
        for j in 0..bl
            invariant
                al == a@.len(),
                bl == b@.len(),
                i < al,
                prev.len() == bl + 1,
                curr.len() == j + 1,
                forall|k: int|
                    0 <= k <= bl ==> prev@[k] == edit_dist(
                        a@.subrange(0, i as int),
                        b@.subrange(0, k),
                    ),
                forall|k: int|
                    0 <= k <= j ==> curr@[k] == edit_dist(
                        a@.subrange(0, i + 1),
                        b@.subrange(0, k),
                    ),
        {
            proof {
                lemma_edit_dist_le_max(a@.subrange(0, i as int), b@.subrange(0, j + 1));
                lemma_edit_dist_le_max(a@.subrange(0, i + 1), b@.subrange(0, j as int));
                lemma_edit_dist_le_max(a@.subrange(0, i as int), b@.subrange(0, j as int));
            }
            let cost: u128 = if a[i] == b[j] {
                0
            } else {
                1
            };
            let next = min3_exec(prev[j + 1] + 1, curr[j] + 1, prev[j] + cost);
            proof {
                let ai = a@.subrange(0, i + 1);
                let bj = b@.subrange(0, j + 1);
                assert(ai.drop_last() =~= a@.subrange(0, i as int));
                assert(bj.drop_last() =~= b@.subrange(0, j as int));
                assert(ai.last() == a@[i as int]);
                assert(bj.last() == b@[j as int]);
                assert(edit_dist(ai, bj) == min3(
                    edit_dist(a@.subrange(0, i as int), bj) + 1,
                    edit_dist(ai, b@.subrange(0, j as int)) + 1,
                    edit_dist(a@.subrange(0, i as int), b@.subrange(0, j as int)) + (
                    if a@[i as int] == b@[j as int] {
                        0nat
                    } else {
                        1nat
                    }),
                ));
            }
            curr.push(next);
        }
        prev = curr;
    }
    proof {
        assert(a@.subrange(0, al as int) =~= a@);
        assert(b@.subrange(0, bl as int) =~= b@);
        lemma_edit_dist_le_max(a@, b@);
    }
    let d = prev[bl];
    d as usize
}

/// The edit distance between two strings.
pub fn levenshtein(a: &str, b: &str) -> (d: usize)
    ensures
        d == edit_dist(a@, b@),
{
    let av = str_to_chars(a);
    let bv = str_to_chars(b);
    levenshtein_chars(&av, &bv)
}

/// Whether the normalized similarity of two sequences reaches a threshold
/// given in hundredths: similarity is one minus the edit distance divided by
/// the longer length, and the comparison is carried out exactly, on
/// integers.
pub open spec fn similar_at_least(a: Seq<char>, b: Seq<char>, percent: int) -> bool {
    let m: int = if a.len() >= b.len() {
        a.len() as int
    } else {
        b.len() as int
    };
    if m == 0 {
        true
    } else {
        100 * (m - edit_dist(a, b)) >= percent * m
    }
}

/// Decides `similar_at_least` on character vectors.
pub fn similarity_at_least(a: &Vec<char>, b: &Vec<char>, percent: u64) -> (r: bool)
    ensures
        r == similar_at_least(a@, b@, percent as int),
{
    let m: usize = if a.len() >= b.len() {
        a.len()
    } else {
        b.len()
    };
    if m == 0 {
        return true;
    }
    let d = levenshtein_chars(a, b);
    proof {
        lemma_edit_dist_le_max(a@, b@);
    }
    if percent > 100 {
        proof {
            assert(100 * ((m - d) as int) < (percent as int) * (m as int)) by (nonlinear_arith)
                requires
                    percent > 100,
                    m >= 1,
                    0 <= d <= m,
            ;
        }
        return false;
    }
    proof {
        assert((percent as int) * (m as int) <= 100 * (m as int)) by (nonlinear_arith)
            requires
                percent <= 100,
                m >= 0,
        ;
    }
    100u128 * ((m - d) as u128) >= (percent as u128) * (m as u128)
}

} // verus!
