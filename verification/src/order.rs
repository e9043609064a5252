use vstd::prelude::*;

use crate::text::chars_of;

verus! {

// ---------------------------------------------------------------------------
// The order of strings
// ---------------------------------------------------------------------------
/// Lexicographic order of strings by their characters (that of `str`'s `Ord`: the order of
/// the UTF-8 bytes is that of the code points).
pub open spec fn lex_lt(a: Seq<char>, b: Seq<char>) -> bool
    decreases a.len(),
{
    if a.len() == 0 {
        b.len() > 0
    } else if b.len() == 0 {
        false
    } else if a[0] != b[0] {
        a[0] < b[0]
    } else {
        lex_lt(a.drop_first(), b.drop_first())
    }
}

pub open spec fn lex_le(a: Seq<char>, b: Seq<char>) -> bool {
    a == b || lex_lt(a, b)
}

pub proof fn lemma_lex_irreflexive(a: Seq<char>)
    ensures
        !lex_lt(a, a),
    decreases a.len(),
{
    if a.len() > 0 {
        lemma_lex_irreflexive(a.drop_first());
    }
}

pub proof fn lemma_lex_transitive(a: Seq<char>, b: Seq<char>, c: Seq<char>)
    requires
        lex_lt(a, b),
        lex_lt(b, c),
    ensures
        lex_lt(a, c),
    decreases a.len(),
{
    if a.len() > 0 && b.len() > 0 && c.len() > 0 {
        if a[0] == b[0] && b[0] == c[0] {
            lemma_lex_transitive(a.drop_first(), b.drop_first(), c.drop_first());
        }
    }
}

pub proof fn lemma_lex_total(a: Seq<char>, b: Seq<char>)
    ensures
        a == b || lex_lt(a, b) || lex_lt(b, a),
    decreases a.len(),
{
    if a.len() > 0 && b.len() > 0 && a[0] == b[0] {
        lemma_lex_total(a.drop_first(), b.drop_first());
        if a.drop_first() == b.drop_first() {
            assert(a =~= seq![a[0]] + a.drop_first());
            assert(b =~= seq![b[0]] + b.drop_first());
        }
    }
    if a.len() == 0 && b.len() == 0 {
        assert(a =~= b);
    }
}

pub proof fn lemma_lex_asymmetric(a: Seq<char>, b: Seq<char>)
    requires
        lex_lt(a, b),
    ensures
        !lex_lt(b, a),
{
    if lex_lt(b, a) {
        lemma_lex_transitive(a, b, a);
        lemma_lex_irreflexive(a);
    }
}

proof fn lemma_lex_skip(a: Seq<char>, b: Seq<char>, i: int)
    requires
        0 <= i <= a.len(),
        i <= b.len(),
        forall|j: int| 0 <= j < i ==> a[j] == b[j],
    ensures
        lex_lt(a, b) == lex_lt(a.skip(i), b.skip(i)),
    decreases i,
{
    if i > 0 {
        assert forall|j: int| 0 <= j < i - 1 implies a.drop_first()[j] == b.drop_first()[j] by {
            assert(a[j + 1] == b[j + 1]);
        }
        lemma_lex_skip(a.drop_first(), b.drop_first(), i - 1);
        assert(a.drop_first().skip(i - 1) =~= a.skip(i));
        assert(b.drop_first().skip(i - 1) =~= b.skip(i));
    } else {
        assert(a.skip(0) =~= a);
        assert(b.skip(0) =~= b);
    }
}

/// Whether `a` comes before `b`.
pub fn str_lt(a: &str, b: &str) -> (r: bool)
    ensures
        r == lex_lt(a@, b@),
{
    let va = chars_of(a);
    let vb = chars_of(b);
    let mut i: usize = 0;
    while i < va.len() && i < vb.len() && va[i] == vb[i]
        invariant
            va@ == a@,
            vb@ == b@,
            i <= va@.len(),
            i <= vb@.len(),
            forall|j: int| 0 <= j < i ==> va@[j] == vb@[j],
        decreases va@.len() - i,
    {
        i = i + 1;
    }
    proof {
        lemma_lex_skip(a@, b@, i as int);
    }
    if i == va.len() {
        i < vb.len()
    } else if i == vb.len() {
        false
    } else {
        va[i] < vb[i]
    }
}

// ---------------------------------------------------------------------------
// Ordering items by a key
// ---------------------------------------------------------------------------
/// `perm` lists each index of `keys` once, orders the keys, and keeps the indices of equal
/// keys in their order: what a stable sort by the keys gives.
pub open spec fn is_stable_order(keys: Seq<Seq<char>>, perm: Seq<usize>) -> bool {
    &&& perm.len() == keys.len()
    &&& forall|i: int| 0 <= i < perm.len() ==> #[trigger] perm[i] < keys.len()
    &&& forall|i: int, j: int| 0 <= i < j < perm.len() ==> perm[i] != perm[j]
    &&& forall|i: int, j: int|
        0 <= i < j < perm.len() ==> lex_le(#[trigger] keys[perm[i] as int], #[trigger] keys[perm[j] as int])
    &&& forall|i: int, j: int|
        0 <= i < j < perm.len() && keys[perm[i] as int] == keys[perm[j] as int] ==> #[trigger] perm[i]
            < #[trigger] perm[j]
}

/// The position of the first index in `perm` whose key comes after `key`.
fn insertion_point(keys: &Vec<String>, perm: &Vec<usize>, key: &str) -> (pos: usize)
    requires
        forall|i: int| 0 <= i < perm@.len() ==> #[trigger] perm@[i] < keys@.len(),
    ensures
        pos <= perm@.len(),
        forall|p: int| 0 <= p < pos ==> !lex_lt(key@, #[trigger] keys@[perm@[p] as int]@),
        pos < perm@.len() ==> lex_lt(key@, keys@[perm@[pos as int] as int]@),
{
    let mut pos: usize = 0;
    while pos < perm.len()
        invariant
            pos <= perm@.len(),
            forall|i: int| 0 <= i < perm@.len() ==> #[trigger] perm@[i] < keys@.len(),
            forall|p: int| 0 <= p < pos ==> !lex_lt(key@, #[trigger] keys@[perm@[p] as int]@),
        decreases perm@.len() - pos,
    {
        if str_lt(key, keys[perm[pos]].as_str()) {
            return pos;
        }
        pos = pos + 1;
    }
    pos
}

/// The order in which a stable sort by `keys` puts the items.
pub fn stable_order_by_key(keys: &Vec<String>) -> (perm: Vec<usize>)
    ensures
        is_stable_order(keys@.map_values(|k: String| k@), perm@),
{
    let ghost ks = keys@.map_values(|k: String| k@);
    let mut perm: Vec<usize> = Vec::new();
    let mut i: usize = 0;
    while i < keys.len()
        invariant
            i <= keys@.len(),
            ks == keys@.map_values(|k: String| k@),
            perm@.len() == i,
            forall|a: int| 0 <= a < perm@.len() ==> #[trigger] perm@[a] < i,
            forall|a: int, b: int| 0 <= a < b < perm@.len() ==> perm@[a] != perm@[b],
            forall|a: int, b: int|
                0 <= a < b < perm@.len() ==> lex_le(#[trigger] ks[perm@[a] as int], #[trigger] ks[perm@[b] as int]),
            forall|a: int, b: int|
                0 <= a < b < perm@.len() && ks[perm@[a] as int] == ks[perm@[b] as int] ==> #[trigger] perm@[a]
                    < #[trigger] perm@[b],
        decreases keys@.len() - i,
    {
        let pos = insertion_point(keys, &perm, keys[i].as_str());
        let ghost old_perm = perm@;
        let ghost k = ks[i as int];
        proof {
            assert forall|p: int| pos <= p < old_perm.len() implies lex_lt(k, #[trigger] ks[old_perm[p] as int]) by {
                if p > pos {
                    assert(lex_le(ks[old_perm[pos as int] as int], ks[old_perm[p] as int]));
                    if ks[old_perm[pos as int] as int] != ks[old_perm[p] as int] {
                        lemma_lex_transitive(k, ks[old_perm[pos as int] as int], ks[old_perm[p] as int]);
                    }
                }
            }
            assert forall|p: int| 0 <= p < pos implies lex_le(#[trigger] ks[old_perm[p] as int], k) by {
                assert(!lex_lt(k, keys@[old_perm[p] as int]@));
                lemma_lex_total(k, ks[old_perm[p] as int]);
            }
        }
        perm.insert(pos, i);
        proof {
            assert forall|a: int| 0 <= a < perm@.len() implies #[trigger] perm@[a] < i + 1 by {
                if a < pos {
                    assert(perm@[a] == old_perm[a]);
                } else if a > pos {
                    assert(perm@[a] == old_perm[a - 1]);
                }
            }
            assert forall|a: int, b: int| 0 <= a < b < perm@.len() implies perm@[a] != perm@[b] by {
                if a < pos && b < pos {
                } else if a < pos && b > pos {
                    assert(perm@[b] == old_perm[b - 1]);
                } else if a > pos {
                    assert(perm@[a] == old_perm[a - 1]);
                    assert(perm@[b] == old_perm[b - 1]);
                } else if a == pos {
                    assert(perm@[b] == old_perm[b - 1]);
                } else {
                    assert(perm@[a] == old_perm[a]);
                }
            }
            assert forall|a: int, b: int| 0 <= a < b < perm@.len() implies lex_le(
                #[trigger] ks[perm@[a] as int],
                #[trigger] ks[perm@[b] as int],
            ) by {
                if b < pos {
                    assert(perm@[a] == old_perm[a] && perm@[b] == old_perm[b]);
                } else if a < pos && b == pos {
                    assert(perm@[a] == old_perm[a]);
                } else if a < pos && b > pos {
                    assert(perm@[a] == old_perm[a] && perm@[b] == old_perm[b - 1]);
                } else if a == pos {
                    assert(perm@[b] == old_perm[b - 1]);
                } else {
                    assert(perm@[a] == old_perm[a - 1] && perm@[b] == old_perm[b - 1]);
                }
            }
            assert forall|a: int, b: int|
                0 <= a < b < perm@.len() && ks[perm@[a] as int] == ks[perm@[b] as int] implies #[trigger] perm@[a]
                < #[trigger] perm@[b] by {
                if b < pos {
                    assert(perm@[a] == old_perm[a] && perm@[b] == old_perm[b]);
                } else if a < pos && b == pos {
                    assert(perm@[a] == old_perm[a]);
                } else if a < pos && b > pos {
                    assert(perm@[a] == old_perm[a] && perm@[b] == old_perm[b - 1]);
                } else if a == pos {
                    assert(perm@[b] == old_perm[b - 1]);
                    lemma_lex_irreflexive(k);
                } else {
                    assert(perm@[a] == old_perm[a - 1] && perm@[b] == old_perm[b - 1]);
                }
            }
        }
        i = i + 1;
    }
    perm
}

/// `order` lists, by increasing key, the first index of each distinct key of `keys`: what
/// a stable sort by the keys followed by keeping the first of each run of equal keys gives.
pub open spec fn is_first_of_each_key(keys: Seq<Seq<char>>, order: Seq<usize>) -> bool {
    &&& forall|i: int| 0 <= i < order.len() ==> #[trigger] order[i] < keys.len()
    &&& forall|i: int, j: int|
        0 <= i < j < order.len() ==> lex_lt(#[trigger] keys[order[i] as int], #[trigger] keys[order[j] as int])
    &&& forall|i: int, m: int|
        0 <= i < order.len() && 0 <= m < order[i] ==> #[trigger] keys[m] != keys[#[trigger] order[i] as int]
    &&& forall|m: int| 0 <= m < keys.len() ==> key_listed(keys, order, #[trigger] keys[m])
}

/// Whether some index in `order` has the key `k`.
pub open spec fn key_listed(keys: Seq<Seq<char>>, order: Seq<usize>, k: Seq<char>) -> bool {
    exists|i: int| 0 <= i < order.len() && #[trigger] keys[order[i] as int] == k
}

/// The position of the first index in `order` whose key does not come before `key`.
fn lower_bound(keys: &Vec<String>, order: &Vec<usize>, key: &str) -> (pos: usize)
    requires
        forall|i: int| 0 <= i < order@.len() ==> #[trigger] order@[i] < keys@.len(),
    ensures
        pos <= order@.len(),
        forall|p: int| 0 <= p < pos ==> lex_lt(#[trigger] keys@[order@[p] as int]@, key@),
        pos < order@.len() ==> !lex_lt(keys@[order@[pos as int] as int]@, key@),
{
    let mut pos: usize = 0;
    while pos < order.len()
        invariant
            pos <= order@.len(),
            forall|i: int| 0 <= i < order@.len() ==> #[trigger] order@[i] < keys@.len(),
            forall|p: int| 0 <= p < pos ==> lex_lt(#[trigger] keys@[order@[p] as int]@, key@),
        decreases order@.len() - pos,
    {
        if !str_lt(keys[order[pos]].as_str(), key) {
            return pos;
        }
        pos = pos + 1;
    }
    pos
}

/// The invariant of `first_of_each_key` after the first `i` keys.
pub open spec fn first_keys_inv(ks: Seq<Seq<char>>, order: Seq<usize>, i: int) -> bool {
    &&& forall|a: int| 0 <= a < order.len() ==> #[trigger] order[a] < i
    &&& forall|a: int, b: int|
        0 <= a < b < order.len() ==> lex_lt(#[trigger] ks[order[a] as int], #[trigger] ks[order[b] as int])
    &&& forall|a: int, m: int|
        0 <= a < order.len() && 0 <= m < order[a] ==> #[trigger] ks[m] != ks[#[trigger] order[a] as int]
    &&& forall|m: int| 0 <= m < i ==> key_listed(ks, order, #[trigger] ks[m])
}

proof fn lemma_first_keys_present(ks: Seq<Seq<char>>, order: Seq<usize>, i: int, pos: int)
    requires
        0 <= i < ks.len(),
        first_keys_inv(ks, order, i),
        0 <= pos < order.len(),
        ks[order[pos] as int] == ks[i],
    ensures
        first_keys_inv(ks, order, i + 1),
{
    assert forall|m: int| 0 <= m < i + 1 implies key_listed(ks, order, #[trigger] ks[m]) by {
        if m == i {
            assert(ks[order[pos] as int] == ks[m]);
        }
    }
}

proof fn lemma_first_keys_insert(ks: Seq<Seq<char>>, order: Seq<usize>, i: int, pos: int)
    requires
        0 <= i < ks.len(),
        i < usize::MAX,
        first_keys_inv(ks, order, i),
        0 <= pos <= order.len(),
        forall|p: int| 0 <= p < pos ==> lex_lt(#[trigger] ks[order[p] as int], ks[i]),
        pos < order.len() ==> !lex_lt(ks[order[pos] as int], ks[i]),
        pos < order.len() ==> ks[order[pos] as int] != ks[i],
    ensures
        first_keys_inv(ks, order.insert(pos, i as usize), i + 1),
{
    let k = ks[i];
    let n = order.insert(pos, i as usize);
    assert forall|p: int| pos <= p < order.len() implies lex_lt(k, #[trigger] ks[order[p] as int]) by {
        lemma_lex_total(k, ks[order[pos] as int]);
        if p > pos {
            lemma_lex_transitive(k, ks[order[pos] as int], ks[order[p] as int]);
        }
    }
    assert forall|m: int| 0 <= m < i implies #[trigger] ks[m] != k by {
        assert(key_listed(ks, order, ks[m]));
        let a = choose|a: int| 0 <= a < order.len() && #[trigger] ks[order[a] as int] == ks[m];
        if ks[m] == k {
            lemma_lex_irreflexive(k);
        }
    }
    assert forall|a: int| 0 <= a < n.len() implies #[trigger] n[a] < i + 1 by {
        if a < pos {
            assert(n[a] == order[a]);
        } else if a > pos {
            assert(n[a] == order[a - 1]);
        }
    }
    assert forall|a: int, b: int| 0 <= a < b < n.len() implies lex_lt(
        #[trigger] ks[n[a] as int],
        #[trigger] ks[n[b] as int],
    ) by {
        if b < pos {
            assert(n[a] == order[a] && n[b] == order[b]);
        } else if a < pos && b == pos {
            assert(n[a] == order[a]);
        } else if a < pos && b > pos {
            assert(n[a] == order[a] && n[b] == order[b - 1]);
            lemma_lex_transitive(ks[order[a] as int], k, ks[order[b - 1] as int]);
        } else if a == pos {
            assert(n[b] == order[b - 1]);
        } else {
            assert(n[a] == order[a - 1] && n[b] == order[b - 1]);
        }
    }
    assert forall|a: int, m: int| 0 <= a < n.len() && 0 <= m < n[a] implies #[trigger] ks[m]
        != ks[#[trigger] n[a] as int] by {
        if a < pos {
            assert(n[a] == order[a]);
        } else if a > pos {
            assert(n[a] == order[a - 1]);
        }
    }
    assert forall|m: int| 0 <= m < i + 1 implies key_listed(ks, n, #[trigger] ks[m]) by {
        if m == i {
            assert(ks[n[pos] as int] == ks[m]);
        } else {
            assert(key_listed(ks, order, ks[m]));
            let a = choose|a: int| 0 <= a < order.len() && #[trigger] ks[order[a] as int] == ks[m];
            if a < pos {
                assert(n[a] == order[a]);
            } else {
                assert(n[a + 1] == order[a]);
            }
        }
    }
}

/// The first index of each distinct key, by increasing key.
pub fn first_of_each_key(keys: &Vec<String>) -> (order: Vec<usize>)
    ensures
        is_first_of_each_key(keys@.map_values(|k: String| k@), order@),
{
    let ghost ks = keys@.map_values(|k: String| k@);
    let mut order: Vec<usize> = Vec::new();
    let mut i: usize = 0;
    while i < keys.len()
        invariant
            i <= keys@.len(),
            ks == keys@.map_values(|k: String| k@),
            first_keys_inv(ks, order@, i as int),
        decreases keys@.len() - i,
    {
        proof {
            assert forall|a: int| 0 <= a < order@.len() implies #[trigger] order@[a] < keys@.len() by {
                assert(order@[a] < i);
            }
        }
        let pos = lower_bound(keys, &order, keys[i].as_str());
        let present = pos < order.len() && crate::text::str_eq(
            keys[order[pos]].as_str(),
            keys[i].as_str(),
        );
        if present {
            proof {
                lemma_first_keys_present(ks, order@, i as int, pos as int);
            }
        } else {
            proof {
                assert forall|p: int| 0 <= p < pos implies lex_lt(#[trigger] ks[order@[p] as int], ks[i as int]) by {
                    assert(lex_lt(keys@[order@[p] as int]@, keys@[i as int]@));
                }
                lemma_first_keys_insert(ks, order@, i as int, pos as int);
            }
            order.insert(pos, i);
        }
        i = i + 1;
    }
    proof {
        assert(ks.len() == keys@.len());
        assert(first_keys_inv(ks, order@, ks.len() as int));
        assert forall|i: int| 0 <= i < order@.len() implies #[trigger] order@[i] < ks.len() by {}
    }
    order
}

} // verus!
