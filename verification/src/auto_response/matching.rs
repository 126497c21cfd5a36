//! Content matching logic for auto-responses.

use vstd::prelude::*;

verus! {

use crate::auto_response::rules::AutoResponseAction;
use crate::auto_response::rules::AutoResponseRule;
use crate::editdist::similar_at_least;
use crate::editdist::similarity_at_least;
use crate::strutil::str_to_chars;
use crate::textnorm::char_is_alphanumeric;
use crate::textnorm::char_is_whitespace;
use crate::textnorm::compact;
use crate::textnorm::compact_spec;
use crate::textnorm::contains_chars;
use crate::textnorm::contains_seq;
use crate::textnorm::normalize;
use crate::textnorm::normalize_spec;
use crate::textnorm::split_ws;
use crate::textnorm::tokens_spec;
use crate::textnorm::unicode_alnum;
use crate::textnorm::unicode_white;

/// Matching strategy for auto-response patterns.
pub enum MatchMode {
    Fuzzy,
}

/// Content matching configuration for a rule.  The similarity threshold is
/// held in hundredths, so that the comparison is exact on integers.
pub struct ContentMatchConfig {
    pub patterns: Vec<String>,
    pub mode: MatchMode,
    pub compact: bool,
    pub fuzzy_threshold_percent: u64,
    pub max_token_window: usize,
}

/// Whether a pattern holds a character that is neither alphanumeric nor
/// whitespace, so that normalization would destroy it.
pub open spec fn has_special_char(p: Seq<char>) -> bool {
    exists|i: int| 0 <= i < p.len() && !(unicode_alnum(#[trigger] p[i]) || unicode_white(p[i]))
}

/// Whether the pattern holds a character that normalization would drop.
pub fn has_non_alnum_whitespace(input: &str) -> (r: bool)
    ensures
        r == has_special_char(input@),
{
    let chars = str_to_chars(input);
    let n = chars.len();
    for i in 0..n
        invariant
            n == chars@.len(),
            chars@ == input@,
            forall|j: int|
                0 <= j < i ==> (unicode_alnum(#[trigger] input@[j]) || unicode_white(input@[j])),
    {
        let c = chars[i];
        let alnum = char_is_alphanumeric(c);
        let white = char_is_whitespace(c);
        if !alnum && !white {
            return true;
        }
    }
    false
}

/// The tokens joined with single spaces.
pub open spec fn join_sp(ts: Seq<Seq<char>>) -> Seq<char>
    decreases ts.len(),
{
    if ts.len() == 0 {
        Seq::<char>::empty()
    } else if ts.len() == 1 {
        ts[0]
    } else {
        join_sp(ts.drop_last()) + seq![' '] + ts.last()
    }
}

/// Whether some window of consecutive tokens, joined with spaces, is similar
/// enough to the pattern.  The window is capped by the configured width, but
/// never below the pattern's own token count, nor below one.
pub open spec fn fuzzy_match_spec(
    tokens: Seq<Seq<char>>,
    pattern: Seq<char>,
    threshold: int,
    max_window_cfg: int,
) -> bool {
    if tokens.len() == 0 {
        false
    } else {
        let pt = tokens_spec(pattern).len() as int;
        let mw1 = if max_window_cfg >= pt {
            max_window_cfg
        } else {
            pt
        };
        let mw = if mw1 >= 1 {
            mw1
        } else {
            1
        };
        exists|s: int, w: int|
            0 <= s && 1 <= w <= mw && s + w <= tokens.len() && similar_at_least(
                #[trigger] join_sp(tokens.subrange(s, s + w)),
                pattern,
                threshold,
            )
    }
}

/// Scans windows of consecutive tokens for one close enough to the pattern.
pub fn fuzzy_match(
    tokens: &Vec<Vec<char>>,
    pattern: &Vec<char>,
    threshold: u64,
    max_window_cfg: usize,
) -> (r: bool)
    ensures
        r == fuzzy_match_spec(
            tokens@.map_values(|t: Vec<char>| t@),
            pattern@,
            threshold as int,
            max_window_cfg as int,
        ),
{
    let ghost tv = tokens@.map_values(|t: Vec<char>| t@);
    let tn = tokens.len();
    if tn == 0 {
        return false;
    }

    let pattern_tokens = split_ws(pattern);
    let pt = pattern_tokens.len();
    let mw1: usize = if max_window_cfg >= pt {
        max_window_cfg
    } else {
        pt
    };
    let mw: usize = if mw1 >= 1 {
        mw1
    } else {
        1
    };

    for s in 0..tn
        invariant
            tn == tokens@.len(),
            tv == tokens@.map_values(|t: Vec<char>| t@),
            tn > 0,
            mw >= 1,
            mw as int == ({
                let p = tokens_spec(pattern@).len() as int;
                let m1 = if max_window_cfg as int >= p {
                    max_window_cfg as int
                } else {
                    p
                };
                if m1 >= 1 {
                    m1
                } else {
                    1
                }
            }),
            forall|a: int, w: int|
                0 <= a < s && 1 <= w <= mw && a + w <= tn ==> !similar_at_least(
                    #[trigger] join_sp(tv.subrange(a, a + w)),
                    pattern@,
                    threshold as int,
                ),
    {
        let lim: usize = if tn - s >= mw {
            mw
        } else {
            tn - s
        };
        let mut window: Vec<char> = Vec::new();
        proof {
            assert(tv.subrange(s as int, s as int) =~= Seq::<Seq<char>>::empty());
        }
        for k in 0..lim
            invariant
                tn == tokens@.len(),
                tv == tokens@.map_values(|t: Vec<char>| t@),
                tn > 0,
                s < tn,
                mw >= 1,
                mw as int == ({
                    let p = tokens_spec(pattern@).len() as int;
                    let m1 = if max_window_cfg as int >= p {
                        max_window_cfg as int
                    } else {
                        p
                    };
                    if m1 >= 1 {
                        m1
                    } else {
                        1
                    }
                }),
                lim <= mw,
                s + lim <= tn,
                window@ == join_sp(tv.subrange(s as int, s + k)),
                forall|a: int, w: int|
                    0 <= a < s && 1 <= w <= mw && a + w <= tn ==> !similar_at_least(
                        #[trigger] join_sp(tv.subrange(a, a + w)),
                        pattern@,
                        threshold as int,
                    ),
                forall|w: int|
                    1 <= w <= k ==> !similar_at_least(
                        #[trigger] join_sp(tv.subrange(s as int, s + w)),
                        pattern@,
                        threshold as int,
                    ),
        {
            if k > 0 {
                window.push(' ');
            }
            window.extend_from_slice(tokens[s + k].as_slice());
            proof {
                let pre = tv.subrange(s as int, s + k + 1);
                assert(pre.drop_last() =~= tv.subrange(s as int, s + k));
                assert(pre.last() == tv[s + k]);
                if k == 0 {
                    assert(pre.len() == 1);
                    assert(window@ =~= pre[0]);
                } else {
                    assert(window@ =~= join_sp(tv.subrange(s as int, s + k)) + seq![' '] + tv[s
                        + k]);
                }
            }
            if similarity_at_least(&window, pattern, threshold) {
                proof {
                    assert(similar_at_least(
                        join_sp(tv.subrange(s as int, s + (k + 1))),
                        pattern@,
                        threshold as int,
                    ));
                }
                return true;
            }
        }
    }
    proof {
        if fuzzy_match_spec(tv, pattern@, threshold as int, max_window_cfg as int) {
            let (a, w) = choose|a: int, w: int|
                0 <= a && 1 <= w <= mw && a + w <= tv.len() && similar_at_least(
                    #[trigger] join_sp(tv.subrange(a, a + w)),
                    pattern@,
                    threshold as int,
                );
            assert(!similar_at_least(join_sp(tv.subrange(a, a + w)), pattern@, threshold as int));
        }
    }
    false
}

/// Whether one pattern hits the raw content directly: it holds a character
/// that normalization would drop, and occurs verbatim.
pub open spec fn direct_hit(pattern: Seq<char>, content: Seq<char>) -> bool {
    has_special_char(pattern) && contains_seq(content, pattern)
}

/// Whether one pattern hits the normalized content: its normalized form is
/// non-empty and either a token window is similar enough, or, when compact
/// matching is on, its compacted form occurs in the compacted content.
pub open spec fn normalized_hit(
    cfg: ContentMatchConfig,
    norm: Seq<char>,
    pattern: Seq<char>,
) -> bool {
    let pn = normalize_spec(pattern);
    pn.len() > 0 && (fuzzy_match_spec(
        tokens_spec(norm),
        pn,
        cfg.fuzzy_threshold_percent as int,
        cfg.max_token_window as int,
    ) || (cfg.compact && contains_seq(compact_spec(norm), compact_spec(pn))))
}

/// What `ContentMatchConfig::matches` decides.
pub open spec fn matches_spec(cfg: ContentMatchConfig, content: Seq<char>) -> bool {
    (exists|pi: int|
        0 <= pi < cfg.patterns.len() && direct_hit(#[trigger] cfg.patterns[pi]@, content)) || {
        let norm = normalize_spec(content);
        norm.len() > 0 && exists|pi: int|
            0 <= pi < cfg.patterns.len() && normalized_hit(cfg, norm, #[trigger] cfg.patterns[pi]@)
    }
}

impl ContentMatchConfig {
    /// Returns true when content matches this config.
    pub fn matches(&self, content: &str) -> (r: bool)
        ensures
            r == matches_spec(*self, content@),
    {
        let content_chars = str_to_chars(content);
        let np = self.patterns.len();
        for pi in 0..np
            invariant
                np == self.patterns.len(),
                content_chars@ == content@,
                forall|j: int| 0 <= j < pi ==> !direct_hit(#[trigger] self.patterns[j]@, content@),
        {
            let p = str_to_chars(self.patterns[pi].as_str());
            if has_non_alnum_whitespace(self.patterns[pi].as_str()) && contains_chars(
                &content_chars,
                &p,
            ) {
                return true;
            }
        }

        let normalized = normalize(content);
        if normalized.len() == 0 {
            return false;
        }

        let compacted = compact(&normalized);
        let tokens = split_ws(&normalized);

        for pi in 0..np
            invariant
                np == self.patterns.len(),
                normalized@ == normalize_spec(content@),
                normalized@.len() > 0,
                compacted@ == compact_spec(normalized@),
                tokens@.map_values(|t: Vec<char>| t@) == tokens_spec(normalized@),
                forall|j: int| 0 <= j < np ==> !direct_hit(#[trigger] self.patterns[j]@, content@),
                forall|j: int|
                    0 <= j < pi ==> !normalized_hit(
                        *self,
                        normalize_spec(content@),
                        #[trigger] self.patterns[j]@,
                    ),
        {
            let pattern_norm = normalize(self.patterns[pi].as_str());
            if pattern_norm.len() > 0 {
                if fuzzy_match(
                    &tokens,
                    &pattern_norm,
                    self.fuzzy_threshold_percent,
                    self.max_token_window,
                ) {
                    return true;
                }
                if self.compact {
                    let pattern_compact = compact(&pattern_norm);
                    if contains_chars(&compacted, &pattern_compact) {
                        return true;
                    }
                }
            }
        }
        false
    }
}

/// Whether a rule applies to a message: its user list is empty or holds the
/// author, and its content configuration matches.
pub open spec fn rule_applies(rule: AutoResponseRule, user_id: u64, content: Seq<char>) -> bool {
    (rule.user_ids@.len() == 0 || rule.user_ids@.contains(user_id)) && matches_spec(
        rule.content,
        content,
    )
}

/// The first applicable rule's action, if any.
pub open spec fn select_spec(
    rules: Seq<AutoResponseRule>,
    user_id: u64,
    content: Seq<char>,
) -> Option<AutoResponseAction>
    decreases rules.len(),
{
    if rules.len() == 0 {
        None
    } else if rule_applies(rules[0], user_id, content) {
        Some(AutoResponseAction { rule_name: rules[0].name, payload: rules[0].response })
    } else {
        select_spec(rules.drop_first(), user_id, content)
    }
}

fn u64_vec_contains(v: &Vec<u64>, x: u64) -> (r: bool)
    ensures
        r == v@.contains(x),
{
    for i in 0..v.len()
        invariant
            forall|j: int| 0 <= j < i ==> v@[j] != x,
    {
        if v[i] == x {
            return true;
        }
    }
    proof {
        if v@.contains(x) {
            let j = choose|j: int| 0 <= j < v@.len() && v@[j] == x;
            assert(v@[j] != x);
        }
    }
    false
}

/// Returns the first matching auto-response action, if any.
pub fn select_auto_response(rules: &Vec<AutoResponseRule>, user_id: u64, content: &str) -> (r:
    Option<AutoResponseAction>)
    ensures
        r == select_spec(rules@, user_id, content@),
{
    let n = rules.len();
    proof {
        assert(rules@.skip(0) =~= rules@);
    }
    for i in 0..n
        invariant
            n == rules@.len(),
            select_spec(rules@, user_id, content@) == select_spec(
                rules@.skip(i as int),
                user_id,
                content@,
            ),
        decreases n - i,
    {
        proof {
            assert(rules@.skip(i as int)[0] == rules@[i as int]);
            assert(rules@.skip(i as int).drop_first() =~= rules@.skip(i + 1));
        }
        let rule = &rules[i];
        if rule.user_ids.len() != 0 && !u64_vec_contains(&rule.user_ids, user_id) {
            // the rule is limited to other users
        } else if rule.content.matches(content) {
            return Some(
                AutoResponseAction {
                    rule_name: rule.name.clone(),
                    payload: rule.response.duplicate(),
                },
            );
        }
    }
    proof {
        assert(rules@.skip(n as int) =~= Seq::<AutoResponseRule>::empty());
    }
    None
}

} // verus!
