//! One-off joke responder: detects close variants of a French phrase in
//! message content, gated behind a toggle and a single user.

use vstd::prelude::*;

verus! {

use crate::editdist::similar_at_least;
use crate::editdist::similarity_at_least;
use crate::strutil::str_to_chars;
use crate::textnorm::compact;
use crate::textnorm::compact_spec;
use crate::textnorm::contains_chars;
use crate::textnorm::contains_seq;
use crate::textnorm::normalize;
use crate::textnorm::normalize_spec;
use crate::textnorm::split_ws;
use crate::textnorm::tokens_spec;

/// Hard toggle for the temporary joke feature.
pub const JOKE_ENABLED: bool = true;

/// Only respond for this specific user.
pub const JOKE_USER_ID: u64 = 398543560330444813;

/// Image link used as the joke response.
pub const JOKE_IMAGE_URL: &'static str =
    "https://vault-public.s3.ca-east-006.backblazeb2.com/guillaume_a_vu_4k.png";

/// The similarity threshold, in hundredths.
pub const FUZZY_THRESHOLD_PERCENT: u64 = 75;

/// Whether a compacted sequence holds one of the target spellings.
pub open spec fn is_jai_target(s: Seq<char>) -> bool {
    contains_seq(s, "jaivu"@) || contains_seq(s, "jlaivu"@)
}

/// The concatenation of a sequence of tokens, with nothing between them.
pub open spec fn concat_toks(ts: Seq<Seq<char>>) -> Seq<char>
    decreases ts.len(),
{
    if ts.len() == 0 {
        Seq::<char>::empty()
    } else {
        concat_toks(ts.drop_last()) + ts.last()
    }
}

/// Whether some window of up to three consecutive tokens, concatenated,
/// holds a target spelling.
pub open spec fn window_hit(tokens: Seq<Seq<char>>) -> bool {
    exists|i: int, w: int|
        0 <= i && 1 <= w <= 3 && i + w <= tokens.len() && is_jai_target(
            #[trigger] concat_toks(tokens.subrange(i, i + w)),
        )
}

/// What `matches_jai_vu` decides: on the normalized content, either a direct
/// compact-substring hit, a token-window hit, or sufficient whole-string
/// similarity to the target phrase.
pub open spec fn matches_jai_vu_spec(content: Seq<char>) -> bool {
    let norm = normalize_spec(content);
    if norm.len() == 0 {
        false
    } else if is_jai_target(compact_spec(norm)) {
        true
    } else if window_hit(tokens_spec(norm)) {
        true
    } else {
        similar_at_least(norm, "j ai vu"@, FUZZY_THRESHOLD_PERCENT as int)
    }
}

/// Whether the compacted sequence holds a target spelling.
pub fn contains_target_compact(haystack: &Vec<char>) -> (r: bool)
    ensures
        r == is_jai_target(haystack@),
{
    let t1 = str_to_chars("jaivu");
    if contains_chars(haystack, &t1) {
        return true;
    }
    let t2 = str_to_chars("jlaivu");
    contains_chars(haystack, &t2)
}

/// Returns true if the content looks like the target phrase or a close
/// variant of it.
pub fn matches_jai_vu(content: &str) -> (r: bool)
    ensures
        r == matches_jai_vu_spec(content@),
{
    let normalized = normalize(content);
    if normalized.len() == 0 {
        return false;
    }

    let compacted = compact(&normalized);
    if contains_target_compact(&compacted) {
        return true;
    }

    let tokens = split_ws(&normalized);
    let ghost tv = tokens@.map_values(|t: Vec<char>| t@);
    let tn = tokens.len();
    for i in 0..tn
        invariant
            tn == tokens@.len(),
            tv == tokens@.map_values(|t: Vec<char>| t@),
            tv == tokens_spec(normalized@),
            normalized@ == normalize_spec(content@),
            normalized@.len() > 0,
            forall|a: int, w: int|
                0 <= a < i && 1 <= w <= 3 && a + w <= tn ==> !is_jai_target(
                    #[trigger] concat_toks(tv.subrange(a, a + w)),
                ),
    {
        let mut window: Vec<char> = Vec::new();
        let lim: usize = if tn - i >= 3 {
            3
        } else {
            tn - i
        };
        proof {
            assert(tv.subrange(i as int, i as int) =~= Seq::<Seq<char>>::empty());
        }
        for k in 0..lim
            invariant
                tn == tokens@.len(),
                tv == tokens@.map_values(|t: Vec<char>| t@),
                tv == tokens_spec(normalized@),
                normalized@ == normalize_spec(content@),
                normalized@.len() > 0,
                i < tn,
                lim <= 3,
                i + lim <= tn,
                window@ == concat_toks(tv.subrange(i as int, i + k)),
                forall|a: int, w: int|
                    0 <= a < i && 1 <= w <= 3 && a + w <= tn ==> !is_jai_target(
                        #[trigger] concat_toks(tv.subrange(a, a + w)),
                    ),
                forall|w: int|
                    1 <= w <= k ==> !is_jai_target(
                        #[trigger] concat_toks(tv.subrange(i as int, i + w)),
                    ),
        {
            window.extend_from_slice(tokens[i + k].as_slice());
            proof {
                let pre = tv.subrange(i as int, i + k + 1);
                assert(pre.drop_last() =~= tv.subrange(i as int, i + k));
                assert(pre.last() == tv[i + k]);
                assert(window@ == concat_toks(tv.subrange(i as int, i + k + 1)));
            }
            if contains_target_compact(&window) {
                proof {
                    assert(is_jai_target(concat_toks(tv.subrange(i as int, i + (k + 1)))));
                    assert(window_hit(tv));
                }
                return true;
            }
        }
    }

    let target = str_to_chars("j ai vu");
    let r = similarity_at_least(&normalized, &target, FUZZY_THRESHOLD_PERCENT);
    proof {
        if window_hit(tv) {
            let (a, w) = choose|a: int, w: int|
                0 <= a && 1 <= w <= 3 && a + w <= tv.len() && is_jai_target(
                    #[trigger] concat_toks(tv.subrange(a, a + w)),
                );
            assert(!is_jai_target(concat_toks(tv.subrange(a, a + w))));
        }
    }
    r
}

/// Gate the joke response behind the toggle and the configured user.
pub fn should_trigger_joke(user_id: u64, content: &str) -> (r: bool)
    ensures
        r == (JOKE_ENABLED && user_id == JOKE_USER_ID && matches_jai_vu_spec(content@)),
{
    if !JOKE_ENABLED {
        return false;
    }
    if user_id != JOKE_USER_ID {
        return false;
    }
    matches_jai_vu(content)
}

} // verus!
