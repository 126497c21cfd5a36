//! Object-store index entries: turning a raw key listing into the cached,
//! name-sorted entry list that the fuzzy searches work over.

use vstd::prelude::*;

verus! {

use vstd::multiset::Multiset;
use vstd::seq_lib::to_multiset_contains;
use vstd::string::StrSliceExecFns;

use crate::fuzzy_search::lemma_lex_lt_connex;
use crate::fuzzy_search::lemma_lex_lt_irrefl;
use crate::fuzzy_search::lemma_lex_lt_trans;
use crate::fuzzy_search::lex_lt;
use crate::fuzzy_search::lex_lt_bytes;
use crate::fuzzy_search::utf8_of;

/// One object in the store: its full key and its file name, the part of the
/// key after the last slash.
pub struct S3Entry {
    pub key: String,
    pub name: String,
}

impl S3Entry {
    /// An equal copy of the entry.
    pub fn duplicate(&self) -> (r: Self)
        ensures
            r == *self,
    {
        S3Entry { key: self.key.clone(), name: self.name.clone() }
    }
}

/// The cached entry listing.
pub struct S3Cache {
    pub entries: Vec<S3Entry>,
}

/// The part of a key after its last `/`: its maximal suffix free of `/`.
pub open spec fn name_of_key(key: Seq<char>) -> Seq<char>
    decreases key.len(),
{
    if key.len() == 0 {
        key
    } else if key.last() == '/' {
        Seq::<char>::empty()
    } else {
        name_of_key(key.drop_last()) + seq![key.last()]
    }
}

/// Computes the file-name part of a key.
pub fn key_file_name(key: &str) -> (r: String)
    ensures
        r@ == name_of_key(key@),
{
    let n = key.unicode_len();
    let mut start: usize = n;
    proof {
        assert(key@.subrange(0, n as int) =~= key@);
        assert(key@.subrange(n as int, n as int) =~= Seq::<char>::empty());
        assert(name_of_key(key@) + key@.subrange(n as int, n as int) =~= name_of_key(key@));
    }
    while start > 0
        invariant
            n == key@.len(),
            start <= n,
            name_of_key(key@) == name_of_key(key@.subrange(0, start as int)) + key@.subrange(
                start as int,
                n as int,
            ),
        ensures
            start == 0 || key@[start - 1] == '/',
            start <= n,
            name_of_key(key@) == name_of_key(key@.subrange(0, start as int)) + key@.subrange(
                start as int,
                n as int,
            ),
        decreases start,
    {
        if key.get_char(start - 1) == '/' {
            break ;
        }
        proof {
            let pre = key@.subrange(0, start as int);
            assert(pre.last() == key@[start - 1]);
            assert(pre.drop_last() =~= key@.subrange(0, start - 1));
            assert(name_of_key(pre) == name_of_key(key@.subrange(0, start - 1)) + seq![key@[start
                - 1]]);
            assert(name_of_key(key@.subrange(0, start - 1)) + (seq![key@[start - 1]] + key@
                .subrange(start as int, n as int)) =~= (name_of_key(
                key@.subrange(0, start - 1),
            ) + seq![key@[start - 1]]) + key@.subrange(start as int, n as int));
            assert(seq![key@[start - 1]] + key@.subrange(start as int, n as int) =~= key@.subrange(
                start - 1,
                n as int,
            ));
        }
        start = start - 1;
    }
    proof {
        let pre = key@.subrange(0, start as int);
        if start == 0 {
            assert(pre =~= Seq::<char>::empty());
        } else {
            assert(pre.last() == '/');
        }
        assert(name_of_key(pre) =~= Seq::<char>::empty());
        assert(name_of_key(key@) =~= key@.subrange(start as int, n as int));
    }
    let sub = key.substring_char(start, n);
    sub.to_owned()
}

/// Whether a listed key is kept: not a directory marker (a key ending in
/// `/`) and not a dot file.
pub open spec fn key_kept(key: Seq<char>) -> bool {
    &&& !(key.len() > 0 && key.last() == '/')
    &&& !(name_of_key(key).len() > 0 && name_of_key(key)[0] == '.')
}

/// The (key, name) pairs that a raw key listing yields, in listing order.
pub open spec fn entries_of_keys(keys: Seq<Seq<char>>) -> Seq<(Seq<char>, Seq<char>)>
    decreases keys.len(),
{
    if keys.len() == 0 {
        Seq::empty()
    } else {
        let rest = entries_of_keys(keys.drop_last());
        if key_kept(keys.last()) {
            rest + seq![(keys.last(), name_of_key(keys.last()))]
        } else {
            rest
        }
    }
}

/// Builds the entry list from a raw key listing: directory markers and dot
/// files are dropped, and each kept key is paired with its file name.  The
/// listing order is kept; sorting is a separate step.
pub fn entries_from_keys(keys: &Vec<String>) -> (r: Vec<S3Entry>)
    ensures
        r@.map_values(|e: S3Entry| (e.key@, e.name@)) == entries_of_keys(
            keys@.map_values(|k: String| k@),
        ),
{
    let ghost kv = keys@.map_values(|k: String| k@);
    let n = keys.len();
    let mut out: Vec<S3Entry> = Vec::new();
    proof {
        assert(out@.map_values(|e: S3Entry| (e.key@, e.name@)) =~= Seq::<(
            Seq<char>,
            Seq<char>,
        )>::empty());
        assert(kv.subrange(0, 0) =~= Seq::<Seq<char>>::empty());
    }
    for i in 0..n
        invariant
            n == keys@.len(),
            kv == keys@.map_values(|k: String| k@),
            out@.map_values(|e: S3Entry| (e.key@, e.name@)) == entries_of_keys(
                kv.subrange(0, i as int),
            ),
    {
        let key = &keys[i];
        let name = key_file_name(key.as_str());
        let klen = key.as_str().unicode_len();
        let mut kept = true;
        if klen > 0 && key.as_str().get_char(klen - 1) == '/' {
            kept = false;
        }
        if name.as_str().unicode_len() > 0 && name.as_str().get_char(0) == '.' {
            kept = false;
        }
        proof {
            let pre = kv.subrange(0, i + 1);
            assert(pre.drop_last() =~= kv.subrange(0, i as int));
            assert(pre.last() == kv[i as int]);
        }
        let ghost old_out = out@;
        if kept {
            out.push(S3Entry { key: key.clone(), name });
            proof {
                let f = |e: S3Entry| (e.key@, e.name@);
                assert(out@.map_values(f) =~= old_out.map_values(f) + seq![
                    (kv[i as int], name_of_key(kv[i as int])),
                ]);
            }
        }
    }
    proof {
        assert(kv.subrange(0, n as int) =~= kv);
    }
    out
}

/// Whether entry `a` may stand before entry `b` in name order.
pub open spec fn name_le(a: S3Entry, b: S3Entry) -> bool {
    !lex_lt(utf8_of(b.name@), utf8_of(a.name@))
}

/// Sorts the entries by name: the result is ordered and holds exactly the
/// same entries (as a multiset).
pub fn sort_entries_by_name(entries: &Vec<S3Entry>) -> (r: Vec<S3Entry>)
    ensures
        r@.len() == entries@.len(),
        forall|k1: int, k2: int|
            #![trigger r@[k1], r@[k2]]
            0 <= k1 < k2 < r@.len() ==> name_le(r@[k1], r@[k2]),
        r@.to_multiset() == entries@.to_multiset(),
{
    broadcast use vstd::seq_lib::group_to_multiset_ensures;

    let n = entries.len();
    let mut rest: Vec<S3Entry> = Vec::new();
    for j in 0..n
        invariant
            n == entries@.len(),
            rest@.len() == j,
            forall|k: int| 0 <= k < j ==> rest@[k] == entries@[k],
    {
        rest.push(entries[j].duplicate());
    }
    proof {
        assert(rest@ =~= entries@);
    }
    let mut out: Vec<S3Entry> = Vec::new();
    proof {
        assert(out@.to_multiset().add(rest@.to_multiset()) =~= entries@.to_multiset());
    }
    while rest.len() > 0
        invariant
            out@.len() + rest@.len() == entries@.len(),
            out@.to_multiset().add(rest@.to_multiset()) == entries@.to_multiset(),
            forall|k1: int, k2: int|
                #![trigger out@[k1], out@[k2]]
                0 <= k1 < k2 < out@.len() ==> name_le(out@[k1], out@[k2]),
            forall|i: int|
                (0 <= i < rest@.len() && out@.len() > 0) ==> name_le(
                    out@[out@.len() - 1],
                    #[trigger] rest@[i],
                ),
        decreases rest.len(),
    {
        let bi = pick_least_index(&rest);
        let ghost old_out = out@;
        let ghost old_rest = rest@;
        let picked = rest.remove(bi);
        out.push(picked);
        proof {
            let last = old_rest[bi as int];
            vstd::seq_lib::to_multiset_remove(old_rest, bi as int);
            vstd::seq_lib::to_multiset_build(old_out, last);
            to_multiset_contains(old_rest, last);
            assert(rest@ == old_rest.remove(bi as int));
            assert(out@ == old_out.push(last));
            assert(rest@.to_multiset() =~= old_rest.to_multiset().remove(last));
            assert(out@.to_multiset() =~= old_out.to_multiset().insert(last));
            assert(old_rest.contains(last));
            assert(old_rest.to_multiset().count(last) > 0);
            assert(out@.to_multiset().add(rest@.to_multiset()) =~= entries@.to_multiset());
            assert(forall|k: int| 0 <= k < old_out.len() ==> #[trigger] out@[k] == old_out[k]);
            assert(out@[out@.len() - 1] == last);
            assert forall|k1: int, k2: int|
                #![trigger out@[k1], out@[k2]]
                0 <= k1 < k2 < out@.len() implies name_le(out@[k1], out@[k2]) by {
                if k2 == out@.len() - 1 && old_out.len() > 0 {
                    let prev = old_out[old_out.len() - 1];
                    assert(name_le(prev, last));
                    if k1 < old_out.len() - 1 {
                        let a = old_out[k1];
                        assert(name_le(a, prev));
                        if lex_lt(utf8_of(last.name@), utf8_of(a.name@)) {
                            lemma_lex_lt_connex(utf8_of(prev.name@), utf8_of(a.name@));
                            if utf8_of(prev.name@) == utf8_of(a.name@) {
                            } else {
                                lemma_lex_lt_trans(
                                    utf8_of(last.name@),
                                    utf8_of(a.name@),
                                    utf8_of(prev.name@),
                                );
                            }
                        }
                    }
                }
            }
            assert forall|i: int| 0 <= i < rest@.len() implies name_le(
                out@[out@.len() - 1],
                #[trigger] rest@[i],
            ) by {
                if i < bi {
                    assert(rest@[i] == old_rest[i]);
                } else {
                    assert(rest@[i] == old_rest[i + 1]);
                }
            }
        }
    }
    proof {
        assert(rest@.to_multiset().len() == 0);
        assert(rest@.to_multiset() =~= Multiset::<S3Entry>::empty());
        assert(out@.to_multiset().add(Multiset::<S3Entry>::empty()) =~= out@.to_multiset());
    }
    out
}

/// The position of an entry least in name order; among equals, the first.
fn pick_least_index(rest: &Vec<S3Entry>) -> (r: usize)
    requires
        rest@.len() > 0,
    ensures
        0 <= r < rest@.len(),
        forall|k: int| 0 <= k < rest@.len() ==> name_le(rest@[r as int], #[trigger] rest@[k]),
{
    let n = rest.len();
    let mut bi: usize = 0;
    proof {
        lemma_lex_lt_irrefl(utf8_of(rest@[0].name@));
    }
    for j in 1..n
        invariant
            n == rest@.len(),
            0 <= bi < j,
            j <= n,
            forall|k: int| 0 <= k < j ==> name_le(rest@[bi as int], #[trigger] rest@[k]),
    {
        let nj = rest[j].name.as_str().as_bytes_vec();
        let nb = rest[bi].name.as_str().as_bytes_vec();
        if lex_lt_bytes(&nj, &nb) {
            proof {
                let bn = utf8_of(rest@[bi as int].name@);
                let jn = utf8_of(rest@[j as int].name@);
                lemma_lex_lt_irrefl(jn);
                assert forall|k: int| 0 <= k < j + 1 implies name_le(
                    rest@[j as int],
                    #[trigger] rest@[k],
                ) by {
                    let kn = utf8_of(rest@[k].name@);
                    if lex_lt(kn, jn) {
                        lemma_lex_lt_trans(kn, jn, bn);
                    }
                }
            }
            bi = j;
        } else {
            proof {
                assert(name_le(rest@[bi as int], rest@[j as int]));
            }
        }
    }
    bi
}

} // verus!
