//! Text normalization for the fuzzy content matchers: lowercasing, dropping
//! punctuation, collapsing whitespace, whitespace tokenization, and substring
//! search over character vectors.

use vstd::prelude::*;

verus! {

use crate::strutil::str_to_chars;

/// Whether a character counts as Unicode whitespace.
pub uninterp spec fn unicode_white(c: char) -> bool;

/// Whether a character counts as Unicode alphanumeric.
pub uninterp spec fn unicode_alnum(c: char) -> bool;

/// What lowercasing a string yields; it depends on the characters alone.
pub uninterp spec fn lower_of(s: Seq<char>) -> Seq<char>;

/// Relies on char::is_whitespace: whether the character has the Unicode
/// whitespace property.
#[verifier::external_body]
pub fn char_is_whitespace(c: char) -> (r: bool)
    ensures
        r == unicode_white(c),
{
    c.is_whitespace()
}

/// Relies on char::is_alphanumeric: whether the character is alphabetic or
/// numeric under Unicode.
#[verifier::external_body]
pub fn char_is_alphanumeric(c: char) -> (r: bool)
    ensures
        r == unicode_alnum(c),
{
    c.is_alphanumeric()
}

/// Relies on str::to_lowercase: the result depends on the characters alone,
/// and an empty string stays empty.
#[verifier::external_body]
pub fn to_lowercase(s: &str) -> (r: String)
    ensures
        r@ == lower_of(s@),
        s@.len() == 0 ==> r@.len() == 0,
{
    s.to_lowercase()
}

/// The sequence without its leading whitespace.
pub open spec fn trim_start_spec(s: Seq<char>) -> Seq<char>
    decreases s.len(),
{
    if s.len() > 0 && unicode_white(s[0]) {
        trim_start_spec(s.drop_first())
    } else {
        s
    }
}

/// The sequence without its trailing whitespace.
pub open spec fn trim_end_spec(s: Seq<char>) -> Seq<char>
    decreases s.len(),
{
    if s.len() > 0 && unicode_white(s.last()) {
        trim_end_spec(s.drop_last())
    } else {
        s
    }
}

/// The sequence without leading and trailing whitespace.
pub open spec fn trim_spec(s: Seq<char>) -> Seq<char> {
    trim_end_spec(trim_start_spec(s))
}

/// Relies on str::trim, which removes from both ends exactly the characters
/// for which char::is_whitespace holds.
#[verifier::external_body]
pub fn trim(s: &str) -> (r: &str)
    ensures
        r@ == trim_spec(s@),
{
    s.trim()
}

/// One step of normalization, applied to each lowercased character in turn:
/// whitespace collapses into a single separating space, alphanumeric
/// characters are kept, everything else is dropped.
pub open spec fn norm_step(acc: Seq<char>, c: char) -> Seq<char> {
    if unicode_white(c) {
        if acc.len() > 0 && acc.last() != ' ' {
            acc + seq![' ']
        } else {
            acc
        }
    } else if unicode_alnum(c) {
        acc + seq![c]
    } else {
        acc
    }
}

/// The normalization fold over a whole sequence.
pub open spec fn norm_fold(s: Seq<char>) -> Seq<char>
    decreases s.len(),
{
    if s.len() == 0 {
        Seq::<char>::empty()
    } else {
        norm_step(norm_fold(s.drop_last()), s.last())
    }
}

/// Normalized form of a string: lowercased, punctuation dropped, whitespace
/// runs collapsed to single spaces, no leading or trailing space.
pub open spec fn normalize_spec(s: Seq<char>) -> Seq<char> {
    let t = norm_fold(lower_of(s));
    if t.len() > 0 && t.last() == ' ' {
        t.drop_last()
    } else {
        t
    }
}

/// Normalizes message content for fuzzy matching.
pub fn normalize(input: &str) -> (r: Vec<char>)
    ensures
        r@ == normalize_spec(input@),
{
    let lowered = to_lowercase(input);
    let chars = str_to_chars(lowered.as_str());
    let n = chars.len();
    let mut acc: Vec<char> = Vec::new();
    for i in 0..n
        invariant
            n == chars@.len(),
            chars@ == lower_of(input@),
            acc@ == norm_fold(chars@.subrange(0, i as int)),
    {
        let c = chars[i];
        if char_is_whitespace(c) {
            if acc.len() > 0 && *acc.last().unwrap() != ' ' {
                acc.push(' ');
            }
        } else if char_is_alphanumeric(c) {
            acc.push(c);
        }
        proof {
            let pre = chars@.subrange(0, i + 1);
            assert(pre.drop_last() =~= chars@.subrange(0, i as int));
            assert(pre.last() == chars@[i as int]);
        }
    }
    proof {
        assert(chars@.subrange(0, n as int) =~= chars@);
    }
    if acc.len() > 0 && *acc.last().unwrap() == ' ' {
        acc.pop();
        proof {
            assert(acc@ =~= normalize_spec(input@));
        }
    }
    acc
}

/// The sequence with all whitespace characters removed.
pub open spec fn compact_spec(s: Seq<char>) -> Seq<char>
    decreases s.len(),
{
    if s.len() == 0 {
        Seq::<char>::empty()
    } else if unicode_white(s.last()) {
        compact_spec(s.drop_last())
    } else {
        compact_spec(s.drop_last()) + seq![s.last()]
    }
}

/// Removes every whitespace character.
pub fn compact(input: &Vec<char>) -> (r: Vec<char>)
    ensures
        r@ == compact_spec(input@),
{
    let n = input.len();
    let mut acc: Vec<char> = Vec::new();
    for i in 0..n
        invariant
            n == input@.len(),
            acc@ == compact_spec(input@.subrange(0, i as int)),
    {
        let c = input[i];
        if !char_is_whitespace(c) {
            acc.push(c);
        }
        proof {
            let pre = input@.subrange(0, i + 1);
            assert(pre.drop_last() =~= input@.subrange(0, i as int));
            assert(pre.last() == input@[i as int]);
        }
    }
    proof {
        assert(input@.subrange(0, n as int) =~= input@);
    }
    acc
}

/// Whether `needle` occurs in `hay` starting at position `i`.
pub open spec fn contains_at(hay: Seq<char>, needle: Seq<char>, i: int) -> bool {
    &&& 0 <= i
    &&& i + needle.len() <= hay.len()
    &&& hay.subrange(i, i + needle.len()) == needle
}

/// Whether `needle` occurs anywhere in `hay`.
pub open spec fn contains_seq(hay: Seq<char>, needle: Seq<char>) -> bool {
    exists|i: int| contains_at(hay, needle, i)
}

/// Substring search over character vectors.
pub fn contains_chars(hay: &Vec<char>, needle: &Vec<char>) -> (r: bool)
    ensures
        r == contains_seq(hay@, needle@),
{
    let nl = needle.len();
    let hl = hay.len();
    if nl > hl {
        proof {
            assert(forall|i: int| !contains_at(hay@, needle@, i));
        }
        return false;
    }
    if nl == 0 {
        proof {
            assert(hay@.subrange(0, 0) =~= needle@);
            assert(contains_at(hay@, needle@, 0));
        }
        return true;
    }
    let mut i: usize = 0;
    while i <= hl - nl
        invariant
            nl == needle@.len(),
            hl == hay@.len(),
            0 < nl <= hl,
            i <= hl - nl + 1,
            forall|k: int| 0 <= k < i ==> !contains_at(hay@, needle@, k),
        decreases hl - i,
    {
        let mut j: usize = 0;
        let mut ok = true;
        while j < nl
            invariant
                nl == needle@.len(),
                hl == hay@.len(),
                i + nl <= hl,
                j <= nl,
                ok == (forall|k: int| 0 <= k < j ==> hay@[i + k] == needle@[k]),
            decreases nl - j,
        {
            if hay[i + j] != needle[j] {
                ok = false;
                proof {
                    assert(hay@[i + j as int] != needle@[j as int]);
                }
                j = nl;
            } else {
                j = j + 1;
            }
        }
        if ok {
            proof {
                assert(hay@.subrange(i as int, i + nl) =~= needle@);
                assert(contains_at(hay@, needle@, i as int));
            }
            return true;
        }
        proof {
            if contains_at(hay@, needle@, i as int) {
                assert(forall|k: int|
                    0 <= k < nl ==> #[trigger] hay@.subrange(i as int, i + nl)[k] == hay@[i
                        + k]);
                assert(false);
            }
        }
        i = i + 1;
    }
    proof {
        assert(forall|k: int| contains_at(hay@, needle@, k) ==> 0 <= k && k + nl <= hl);
        assert(forall|k: int| 0 <= k < i ==> !contains_at(hay@, needle@, k));
    }
    false
}

/// The first maximal run of non-whitespace characters.
pub open spec fn head_token(s: Seq<char>) -> Seq<char>
    decreases s.len(),
{
    if s.len() == 0 || unicode_white(s[0]) {
        Seq::<char>::empty()
    } else {
        seq![s[0]] + head_token(s.drop_first())
    }
}

/// The first token is never longer than the whole sequence.
pub proof fn lemma_head_token_len(s: Seq<char>)
    ensures
        head_token(s).len() <= s.len(),
    decreases s.len(),
{
    if s.len() == 0 || unicode_white(s[0]) {
    } else {
        lemma_head_token_len(s.drop_first());
    }
}

/// The maximal runs of non-whitespace characters, in order.
pub open spec fn tokens_spec(s: Seq<char>) -> Seq<Seq<char>>
    decreases s.len(),
    via tokens_spec_decreases
{
    if s.len() == 0 {
        Seq::<Seq<char>>::empty()
    } else if unicode_white(s[0]) {
        tokens_spec(s.drop_first())
    } else {
        seq![head_token(s)] + tokens_spec(s.skip(head_token(s).len() as int))
    }
}

#[via_fn]
proof fn tokens_spec_decreases(s: Seq<char>) {
    if s.len() > 0 && !unicode_white(s[0]) {
        lemma_head_token_len(s);
        assert(head_token(s).len() >= 1);
    }
}

/// Splits a character vector at whitespace into its tokens.
pub fn split_ws(s: &Vec<char>) -> (r: Vec<Vec<char>>)
    ensures
        r@.map_values(|t: Vec<char>| t@) == tokens_spec(s@),
{
    let n = s.len();
    let mut out: Vec<Vec<char>> = Vec::new();
    let mut i: usize = 0;
    proof {
        assert(s@.skip(0) =~= s@);
        assert(out@.map_values(|t: Vec<char>| t@) =~= Seq::<Seq<char>>::empty());
    }
    while i < n
        invariant
            n == s@.len(),
            i <= n,
            tokens_spec(s@) == out@.map_values(|t: Vec<char>| t@) + tokens_spec(
                s@.skip(i as int),
            ),
        decreases n - i,
    {
        if char_is_whitespace(s[i]) {
            proof {
                let rest = s@.skip(i as int);
                assert(rest[0] == s@[i as int]);
                assert(rest.drop_first() =~= s@.skip(i + 1));
            }
            i = i + 1;
        } else {
            let start = i;
            let mut cur: Vec<char> = Vec::new();
            proof {
                assert(s@.subrange(start as int, start as int) =~= Seq::<char>::empty());
                assert(head_token(s@.skip(start as int)) =~= s@.subrange(
                    start as int,
                    start as int,
                ) + head_token(s@.skip(start as int)));
            }
            loop
                invariant
                    n == s@.len(),
                    start < n,
                    !unicode_white(s@[start as int]),
                    start <= i <= n,
                    cur@ == s@.subrange(start as int, i as int),
                    head_token(s@.skip(start as int)) == s@.subrange(start as int, i as int)
                        + head_token(s@.skip(i as int)),
                ensures
                    n == s@.len(),
                    start < i <= n,
                    cur@ == s@.subrange(start as int, i as int),
                    head_token(s@.skip(start as int)) == s@.subrange(start as int, i as int)
                        + head_token(s@.skip(i as int)),
                    i == n || unicode_white(s@[i as int]),
                decreases n - i,
            {
                if i == n {
                    break ;
                }
                let c = s[i];
                if char_is_whitespace(c) {
                    break ;
                }
                cur.push(c);
                proof {
                    let rest = s@.skip(i as int);
                    assert(rest[0] == s@[i as int]);
                    assert(rest.drop_first() =~= s@.skip(i + 1));
                    assert(head_token(rest) == seq![s@[i as int]] + head_token(s@.skip(i + 1)));
                    assert(s@.subrange(start as int, i + 1) =~= s@.subrange(start as int, i as int)
                        + seq![s@[i as int]]);
                    assert(s@.subrange(start as int, i + 1) + head_token(s@.skip(i + 1)) =~= (
                    s@.subrange(start as int, i as int) + seq![s@[i as int]]) + head_token(
                        s@.skip(i + 1),
                    ));
                }
                i = i + 1;
            }
            proof {
                let rest = s@.skip(i as int);
                if i == n {
                    assert(rest =~= Seq::<char>::empty());
                } else {
                    assert(rest[0] == s@[i as int]);
                }
                assert(head_token(rest) =~= Seq::<char>::empty());
                assert(head_token(s@.skip(start as int)) =~= s@.subrange(start as int, i as int));
                let srest = s@.skip(start as int);
                assert(srest[0] == s@[start as int]);
                assert(!unicode_white(srest[0]));
                assert(tokens_spec(srest) == seq![head_token(srest)] + tokens_spec(
                    srest.skip(head_token(srest).len() as int),
                ));
                assert(srest.skip((i - start) as int) =~= s@.skip(i as int));
                assert((out@ + seq![cur]).map_values(|t: Vec<char>| t@) =~= out@.map_values(
                    |t: Vec<char>| t@,
                ) + seq![cur@]);
                assert(out@.map_values(|t: Vec<char>| t@) + (seq![cur@] + tokens_spec(
                    s@.skip(i as int),
                )) =~= (out@.map_values(|t: Vec<char>| t@) + seq![cur@]) + tokens_spec(
                    s@.skip(i as int),
                ));
            }
            out.push(cur);
        }
    }
    proof {
        assert(s@.skip(n as int) =~= Seq::<char>::empty());
        assert(out@.map_values(|t: Vec<char>| t@) + tokens_spec(Seq::<char>::empty())
            =~= out@.map_values(|t: Vec<char>| t@));
    }
    out
}

} // verus!
