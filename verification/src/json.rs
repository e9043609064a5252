use vstd::prelude::*;

use crate::text::str_eq;

verus! {

/// A JSON number as the settings files hold it. A float keeps the bit pattern of its
/// `f64`, so that it travels through the library unchanged and is never computed on.
#[derive(Clone, Copy, PartialEq, Eq, Debug, Structural)]
pub enum JsonNumber {
    PosInt(u64),
    NegInt(i64),
    Float(u64),
}

/// The mathematical model of a JSON document. An object is an association list; its
/// lookups find the first entry with a key.
pub enum Json {
    Null,
    Bool(bool),
    Num(JsonNumber),
    Str(Seq<char>),
    Arr(Seq<Json>),
    Obj(Seq<(Seq<char>, Json)>),
}

/// A JSON document, as the settings, profile and locale files hold it.
#[derive(Debug)]
pub enum JsonValue {
    Null,
    Bool(bool),
    Number(JsonNumber),
    String(String),
    Array(Vec<JsonValue>),
    Object(Vec<(String, JsonValue)>),
}

pub open spec fn view_items(s: Seq<JsonValue>) -> Seq<Json>
    decreases s,
{
    if s.len() == 0 {
        Seq::empty()
    } else {
        view_items(s.drop_last()).push(view_value(s.last()))
    }
}

pub open spec fn view_entries(s: Seq<(String, JsonValue)>) -> Seq<(Seq<char>, Json)>
    decreases s,
{
    if s.len() == 0 {
        Seq::empty()
    } else {
        view_entries(s.drop_last()).push((s.last().0@, view_value(s.last().1)))
    }
}

pub open spec fn view_value(v: JsonValue) -> Json
    decreases v,
{
    match v {
        JsonValue::Null => Json::Null,
        JsonValue::Bool(b) => Json::Bool(b),
        JsonValue::Number(n) => Json::Num(n),
        JsonValue::String(s) => Json::Str(s@),
        JsonValue::Array(a) => Json::Arr(view_items(a@)),
        JsonValue::Object(o) => Json::Obj(view_entries(o@)),
    }
}

impl View for JsonValue {
    type V = Json;

    open spec fn view(&self) -> Json {
        view_value(*self)
    }
}

pub proof fn lemma_view_items(s: Seq<JsonValue>)
    ensures
        view_items(s).len() == s.len(),
        forall|i: int| 0 <= i < s.len() ==> #[trigger] view_items(s)[i] == view_value(s[i]),
    decreases s.len(),
{
    if s.len() > 0 {
        lemma_view_items(s.drop_last());
    }
}

pub proof fn lemma_view_entries(s: Seq<(String, JsonValue)>)
    ensures
        view_entries(s).len() == s.len(),
        forall|i: int|
            0 <= i < s.len() ==> #[trigger] view_entries(s)[i] == (s[i].0@, view_value(s[i].1)),
    decreases s.len(),
{
    if s.len() > 0 {
        lemma_view_entries(s.drop_last());
    }
}

// ---------------------------------------------------------------------------
// Association lists
// ---------------------------------------------------------------------------
/// The position of the first entry with key `k`, if there is one.
pub open spec fn key_index(s: Seq<(Seq<char>, Json)>, k: Seq<char>) -> Option<int>
    decreases s.len(),
{
    if s.len() == 0 {
        None
    } else if s[0].0 == k {
        Some(0)
    } else {
        match key_index(s.drop_first(), k) {
            Some(i) => Some(i + 1),
            None => None,
        }
    }
}

pub proof fn lemma_key_index(s: Seq<(Seq<char>, Json)>, k: Seq<char>)
    ensures
        match key_index(s, k) {
            Some(i) => 0 <= i < s.len() && s[i].0 == k && forall|j: int|
                0 <= j < i ==> #[trigger] s[j].0 != k,
            None => forall|j: int| 0 <= j < s.len() ==> #[trigger] s[j].0 != k,
        },
    decreases s.len(),
{
    if s.len() > 0 {
        lemma_key_index(s.drop_first(), k);
        if s[0].0 != k {
            match key_index(s.drop_first(), k) {
                Some(i) => {
                    assert forall|j: int| 0 <= j < i + 1 implies #[trigger] s[j].0 != k by {
                        if j > 0 {
                            assert(s[j] == s.drop_first()[j - 1]);
                        }
                    }
                },
                None => {
                    assert forall|j: int| 0 <= j < s.len() implies #[trigger] s[j].0 != k by {
                        if j > 0 {
                            assert(s[j] == s.drop_first()[j - 1]);
                        }
                    }
                },
            }
        }
    }
}

/// `key_index` is the unique first position of the key.
pub proof fn lemma_key_index_unique(s: Seq<(Seq<char>, Json)>, k: Seq<char>, i: int)
    requires
        0 <= i < s.len(),
        s[i].0 == k,
        forall|j: int| 0 <= j < i ==> #[trigger] s[j].0 != k,
    ensures
        key_index(s, k) == Some(i),
{
    lemma_key_index(s, k);
    match key_index(s, k) {
        Some(m) => {
            if m < i {
                assert(s[m].0 != k);
            }
            if m > i {
                assert(s[i].0 != k);
            }
        },
        None => {
            assert(s[i].0 != k);
        },
    }
}

/// The value under key `k`: that of its first entry.
pub open spec fn assoc_get(s: Seq<(Seq<char>, Json)>, k: Seq<char>) -> Option<Json> {
    match key_index(s, k) {
        Some(i) => Some(s[i].1),
        None => None,
    }
}

/// Sets key `k` to `v`: in place where the key is, else at the end.
pub open spec fn assoc_insert(s: Seq<(Seq<char>, Json)>, k: Seq<char>, v: Json) -> Seq<
    (Seq<char>, Json),
> {
    match key_index(s, k) {
        Some(i) => s.update(i, (k, v)),
        None => s.push((k, v)),
    }
}

/// Removes the first entry with key `k`.
pub open spec fn assoc_remove(s: Seq<(Seq<char>, Json)>, k: Seq<char>) -> Seq<(Seq<char>, Json)> {
    match key_index(s, k) {
        Some(i) => s.remove(i),
        None => s,
    }
}

/// Whether no key occurs twice.
pub open spec fn keys_distinct(s: Seq<(Seq<char>, Json)>) -> bool {
    forall|i: int, j: int| 0 <= i < j < s.len() ==> #[trigger] s[i].0 != #[trigger] s[j].0
}

// ---------------------------------------------------------------------------
// Reading a document
// ---------------------------------------------------------------------------
impl Json {
    pub open spec fn get(self, k: Seq<char>) -> Option<Json> {
        match self {
            Json::Obj(s) => assoc_get(s, k),
            _ => None,
        }
    }

    pub open spec fn as_u64(self) -> Option<u64> {
        match self {
            Json::Num(JsonNumber::PosInt(n)) => Some(n),
            _ => None,
        }
    }

    pub open spec fn as_str(self) -> Option<Seq<char>> {
        match self {
            Json::Str(s) => Some(s),
            _ => None,
        }
    }

    pub open spec fn as_bool(self) -> Option<bool> {
        match self {
            Json::Bool(b) => Some(b),
            _ => None,
        }
    }
}

/// The position of the first entry of `entries` whose key is `key`.
pub fn entry_position(entries: &Vec<(String, JsonValue)>, key: &str) -> (r: Option<usize>)
    ensures
        r matches Some(i) ==> i < entries@.len(),
        match r {
            Some(i) => key_index(view_entries(entries@), key@) == Some(i as int),
            None => key_index(view_entries(entries@), key@) is None,
        },
{
    proof {
        lemma_view_entries(entries@);
        lemma_key_index(view_entries(entries@), key@);
    }
    let mut i: usize = 0;
    while i < entries.len()
        invariant
            i <= entries@.len(),
            view_entries(entries@).len() == entries@.len(),
            forall|j: int| 0 <= j < i ==> #[trigger] entries@[j].0@ != key@,
            forall|j: int|
                0 <= j < entries@.len() ==> #[trigger] view_entries(entries@)[j] == (
                    entries@[j].0@,
                    view_value(entries@[j].1),
                ),
        decreases entries@.len() - i,
    {
        if str_eq(entries[i].0.as_str(), key) {
            proof {
                assert forall|j: int| 0 <= j < i implies #[trigger] view_entries(entries@)[j].0
                    != key@ by {
                    assert(entries@[j].0@ != key@);
                }
                lemma_key_index_unique(view_entries(entries@), key@, i as int);
            }
            return Some(i);
        }
        i = i + 1;
    }
    proof {
        match key_index(view_entries(entries@), key@) {
            Some(m) => {
                assert(entries@[m].0@ != key@);
            },
            None => {},
        }
    }
    None
}

impl JsonValue {
    /// The value under `key` when this is an object.
    pub fn get(&self, key: &str) -> (r: Option<&JsonValue>)
        ensures
            match r {
                Some(v) => self@.get(key@) == Some(v@),
                None => self@.get(key@) is None,
            },
    {
        match self {
            JsonValue::Object(entries) => {
                proof {
                    lemma_view_entries(entries@);
                }
                match entry_position(entries, key) {
                    Some(i) => Some(&entries[i].1),
                    None => None,
                }
            },
            _ => None,
        }
    }

    pub fn as_u64(&self) -> (r: Option<u64>)
        ensures
            r == self@.as_u64(),
    {
        match self {
            JsonValue::Number(JsonNumber::PosInt(n)) => Some(*n),
            _ => None,
        }
    }

    pub fn as_str(&self) -> (r: Option<&str>)
        ensures
            match r {
                Some(s) => self@.as_str() == Some(s@),
                None => self@.as_str() is None,
            },
    {
        match self {
            JsonValue::String(s) => Some(s.as_str()),
            _ => None,
        }
    }

    pub fn as_bool(&self) -> (r: Option<bool>)
        ensures
            r == self@.as_bool(),
    {
        match self {
            JsonValue::Bool(b) => Some(*b),
            _ => None,
        }
    }

    pub fn is_object(&self) -> (r: bool)
        ensures
            r == (self@ is Obj),
    {
        match self {
            JsonValue::Object(_) => true,
            _ => false,
        }
    }

    pub fn is_array(&self) -> (r: bool)
        ensures
            r == (self@ is Arr),
    {
        match self {
            JsonValue::Array(_) => true,
            _ => false,
        }
    }

    pub fn is_null(&self) -> (r: bool)
        ensures
            r == (self@ is Null),
    {
        match self {
            JsonValue::Null => true,
            _ => false,
        }
    }
}

// ---------------------------------------------------------------------------
// Editing an object
// ---------------------------------------------------------------------------
/// Sets `key` to `value` in the entries of an object.
pub fn entries_insert(entries: &mut Vec<(String, JsonValue)>, key: String, value: JsonValue)
    ensures
        view_entries(final(entries)@) == assoc_insert(view_entries(old(entries)@), key@, value@),
{
    let ghost k = key@;
    let ghost v = value@;
    proof {
        lemma_view_entries(entries@);
    }
    match entry_position(entries, key.as_str()) {
        Some(i) => {
            let ghost before = entries@;
            entries.set(i, (key, value));
            proof {
                lemma_view_entries(entries@);
                assert(view_entries(entries@) =~= view_entries(before).update(i as int, (k, v)));
            }
        },
        None => {
            let ghost before = entries@;
            entries.push((key, value));
            proof {
                assert(entries@.drop_last() =~= before);
            }
        },
    }
}

/// Removes `key` from the entries of an object.
pub fn entries_remove(entries: &mut Vec<(String, JsonValue)>, key: &str)
    ensures
        view_entries(final(entries)@) == assoc_remove(view_entries(old(entries)@), key@),
{
    proof {
        lemma_view_entries(entries@);
    }
    match entry_position(entries, key) {
        Some(i) => {
            let ghost before = entries@;
            let _ = entries.remove(i);
            proof {
                lemma_view_entries(entries@);
                assert(view_entries(entries@) =~= view_entries(before).remove(i as int));
            }
        },
        None => {},
    }
}


// ---------------------------------------------------------------------------
// Deep merge
// ---------------------------------------------------------------------------
/// Merges `overlay` onto `base`: where both are objects, each key of the overlay is merged
/// into the base's value under that key (or added); anywhere else the overlay replaces the
/// base.
pub open spec fn merge_spec(base: Json, overlay: Json) -> Json
    decreases overlay,
{
    match overlay {
        Json::Obj(o) => match base {
            Json::Obj(b) => Json::Obj(merge_entries_spec(b, o)),
            _ => overlay,
        },
        _ => overlay,
    }
}

/// The entries of `b` after the entries of `o` were merged in, in order.
pub open spec fn merge_entries_spec(b: Seq<(Seq<char>, Json)>, o: Seq<(Seq<char>, Json)>) -> Seq<
    (Seq<char>, Json),
>
    decreases o,
{
    if o.len() == 0 {
        b
    } else {
        let r = merge_entries_spec(b, o.drop_last());
        let k = o.last().0;
        let v = o.last().1;
        match key_index(r, k) {
            Some(p) => r.update(p, (k, merge_spec(r[p].1, v))),
            None => r.push((k, v)),
        }
    }
}

/// Merges `overlay` onto `base` (see `merge_spec`).
pub fn merge_json(base: &mut JsonValue, overlay: JsonValue)
    ensures
        final(base)@ == merge_spec(old(base)@, overlay@),
    decreases overlay,
{
    let ghost ov = overlay;
    match overlay {
        JsonValue::Object(oentries) => {
            let mut current = JsonValue::Null;
            std::mem::swap(base, &mut current);
            match current {
                JsonValue::Object(mut bentries) => {
                    merge_entries(&mut bentries, oentries, Ghost(ov));
                    *base = JsonValue::Object(bentries);
                },
                other => {
                    *base = JsonValue::Object(oentries);
                },
            }
        },
        other => {
            *base = other;
        },
    }
}

/// Merges each entry of `oentries` into `bentries`, in order.
fn merge_entries(
    bentries: &mut Vec<(String, JsonValue)>,
    oentries: Vec<(String, JsonValue)>,
    Ghost(ov): Ghost<JsonValue>,
)
    requires
        ov == JsonValue::Object(oentries),
    ensures
        view_entries(final(bentries)@) == merge_entries_spec(
            view_entries(old(bentries)@),
            view_entries(oentries@),
        ),
    decreases ov, 0nat,
{
    let ghost b0 = view_entries(bentries@);
    let ghost o0 = oentries@;
    let ghost ov0 = view_entries(o0);
    proof {
        lemma_view_entries(o0);
        assert(o0.skip(0) =~= o0);
        assert(ov0.take(0) =~= Seq::<(Seq<char>, Json)>::empty());
    }
    let mut rest = oentries;
    let ghost mut i: int = 0;
    while rest.len() > 0
        invariant
            0 <= i <= o0.len(),
            rest@ == o0.skip(i),
            ov0 == view_entries(o0),
            ov0.len() == o0.len(),
            forall|j: int| 0 <= j < o0.len() ==> #[trigger] ov0[j] == (o0[j].0@, view_value(o0[j].1)),
            ov == JsonValue::Object(oentries),
            o0 == oentries@,
            view_entries(bentries@) == merge_entries_spec(b0, ov0.take(i)),
        decreases rest@.len(),
    {
        let ghost before = bentries@;
        let (k, v) = rest.remove(0);
        proof {
            assert(o0[i] == (k, v));
            assert(rest@ =~= o0.skip(i + 1));
            assert(ov0.take(i + 1).drop_last() =~= ov0.take(i));
            assert(ov0.take(i + 1).last() == (k@, view_value(v)));
            lemma_view_entries(before);
            assert(ov->Object_0 == oentries);
            assert(decreases_to!(ov => ov->Object_0));
            assert(decreases_to!(oentries => oentries@));
            assert(decreases_to!(oentries@ => oentries@[i]));
            assert(decreases_to!(oentries@[i] => oentries@[i].1));
            assert(decreases_to!(ov => v));
        }
        match entry_position(bentries, k.as_str()) {
            Some(p) => {
                let (bk, mut bv) = bentries.remove(p);
                let ghost bvv = bv@;
                merge_json(&mut bv, v);
                let ghost bkv = bk@;
                let ghost merged = bv@;
                bentries.insert(p, (bk, bv));
                proof {
                    assert(bentries@ =~= before.update(p as int, (bentries@[p as int].0, bentries@[p as int].1)));
                    lemma_key_index(view_entries(before), k@);
                    assert(view_entries(before)[p as int].0 == k@);
                    assert(bkv == k@);
                    lemma_view_entries(bentries@);
                    assert(view_entries(bentries@) =~= view_entries(before).update(
                        p as int,
                        (k@, merge_spec(bvv, view_value(v))),
                    ));
                }
            },
            None => {
                bentries.push((k, v));
                proof {
                    assert(bentries@.drop_last() =~= before);
                }
            },
        }
        proof {
            i = i + 1;
        }
    }
    proof {
        assert(ov0.take(i) =~= ov0);
    }
}


// ---------------------------------------------------------------------------
// Laws of association lists and of the merge
// ---------------------------------------------------------------------------
pub proof fn lemma_key_index_push(s: Seq<(Seq<char>, Json)>, e: (Seq<char>, Json), k: Seq<char>)
    ensures
        key_index(s.push(e), k) == (match key_index(s, k) {
            Some(i) => Some(i),
            None => if e.0 == k {
                Some(s.len() as int)
            } else {
                None
            },
        }),
{
    let t = s.push(e);
    lemma_key_index(s, k);
    lemma_key_index(t, k);
    match key_index(s, k) {
        Some(i) => {
            assert(t[i] == s[i]);
            assert forall|j: int| 0 <= j < i implies #[trigger] t[j].0 != k by {
                assert(t[j] == s[j]);
            }
            lemma_key_index_unique(t, k, i);
        },
        None => {
            if e.0 == k {
                assert forall|j: int| 0 <= j < s.len() implies #[trigger] t[j].0 != k by {
                    assert(t[j] == s[j]);
                }
                lemma_key_index_unique(t, k, s.len() as int);
            } else {
                match key_index(t, k) {
                    Some(m) => {
                        if m < s.len() {
                            assert(t[m] == s[m]);
                        }
                    },
                    None => {},
                }
            }
        },
    }
}

pub proof fn lemma_key_index_update(s: Seq<(Seq<char>, Json)>, p: int, v: Json, k: Seq<char>)
    requires
        0 <= p < s.len(),
    ensures
        key_index(s.update(p, (s[p].0, v)), k) == key_index(s, k),
{
    let t = s.update(p, (s[p].0, v));
    assert forall|j: int| 0 <= j < s.len() implies #[trigger] t[j].0 == s[j].0 by {}
    lemma_key_index(s, k);
    lemma_key_index(t, k);
    match key_index(s, k) {
        Some(i) => {
            assert forall|j: int| 0 <= j < i implies #[trigger] t[j].0 != k by {
                assert(t[j].0 == s[j].0);
            }
            assert(t[i].0 == s[i].0);
            lemma_key_index_unique(t, k, i);
        },
        None => {
            match key_index(t, k) {
                Some(m) => {
                    assert(t[m].0 == s[m].0);
                },
                None => {},
            }
        },
    }
}

pub proof fn lemma_keys_distinct_drop_last(s: Seq<(Seq<char>, Json)>)
    requires
        s.len() > 0,
        keys_distinct(s),
    ensures
        keys_distinct(s.drop_last()),
        key_index(s.drop_last(), s.last().0) is None,
{
    let t = s.drop_last();
    assert forall|i: int, j: int| 0 <= i < j < t.len() implies #[trigger] t[i].0 != #[trigger] t[j].0 by {
        assert(t[i] == s[i] && t[j] == s[j]);
    }
    lemma_key_index(t, s.last().0);
    match key_index(t, s.last().0) {
        Some(m) => {
            assert(t[m] == s[m]);
            assert(s[m].0 != s[s.len() - 1].0);
        },
        None => {},
    }
}

/// Setting another key leaves a key's value as it was.
pub proof fn lemma_get_insert_other(s: Seq<(Seq<char>, Json)>, k2: Seq<char>, v: Json, k: Seq<char>)
    requires
        k != k2,
    ensures
        assoc_get(assoc_insert(s, k2, v), k) == assoc_get(s, k),
{
    lemma_key_index(s, k2);
    lemma_key_index(s, k);
    match key_index(s, k2) {
        Some(i) => {
            lemma_key_index_update(s, i, v, k);
            match key_index(s, k) {
                Some(m) => {
                    assert(m != i);
                },
                None => {},
            }
        },
        None => {
            lemma_key_index_push(s, (k2, v), k);
            match key_index(s, k) {
                Some(m) => {
                    assert(s.push((k2, v))[m] == s[m]);
                },
                None => {},
            }
        },
    }
}

/// Removing another key leaves a key's value as it was.
pub proof fn lemma_get_remove_other(s: Seq<(Seq<char>, Json)>, k2: Seq<char>, k: Seq<char>)
    requires
        k != k2,
    ensures
        assoc_get(assoc_remove(s, k2), k) == assoc_get(s, k),
{
    lemma_key_index(s, k2);
    lemma_key_index(s, k);
    match key_index(s, k2) {
        Some(i) => {
            let t = s.remove(i);
            lemma_key_index(t, k);
            match key_index(s, k) {
                Some(m) => {
                    assert(m != i);
                    if m < i {
                        assert forall|j: int| 0 <= j < m implies #[trigger] t[j].0 != k by {
                            assert(t[j] == s[j]);
                        }
                        assert(t[m] == s[m]);
                        lemma_key_index_unique(t, k, m);
                    } else {
                        assert forall|j: int| 0 <= j < m - 1 implies #[trigger] t[j].0 != k by {
                            if j < i {
                                assert(t[j] == s[j]);
                            } else {
                                assert(t[j] == s[j + 1]);
                            }
                        }
                        assert(t[m - 1] == s[m]);
                        lemma_key_index_unique(t, k, m - 1);
                    }
                },
                None => {
                    match key_index(t, k) {
                        Some(q) => {
                            if q < i {
                                assert(t[q] == s[q]);
                            } else {
                                assert(t[q] == s[q + 1]);
                            }
                        },
                        None => {},
                    }
                },
            }
        },
        None => {},
    }
}

/// Setting a key keeps the keys of an object distinct.
pub proof fn lemma_insert_keeps_distinct(s: Seq<(Seq<char>, Json)>, k: Seq<char>, v: Json)
    requires
        keys_distinct(s),
    ensures
        keys_distinct(assoc_insert(s, k, v)),
{
    lemma_key_index(s, k);
    let t = assoc_insert(s, k, v);
    match key_index(s, k) {
        Some(i) => {
            assert forall|a: int, b: int| 0 <= a < b < t.len() implies #[trigger] t[a].0 != #[trigger] t[b].0 by {
                assert(t[a].0 == s[a].0 && t[b].0 == s[b].0);
            }
        },
        None => {
            assert forall|a: int, b: int| 0 <= a < b < t.len() implies #[trigger] t[a].0 != #[trigger] t[b].0 by {
                if b < s.len() {
                    assert(t[a] == s[a] && t[b] == s[b]);
                } else {
                    assert(t[a] == s[a]);
                }
            }
        },
    }
}

/// Removing a key keeps the keys of an object distinct.
pub proof fn lemma_remove_keeps_distinct(s: Seq<(Seq<char>, Json)>, k: Seq<char>)
    requires
        keys_distinct(s),
    ensures
        keys_distinct(assoc_remove(s, k)),
{
    lemma_key_index(s, k);
    let t = assoc_remove(s, k);
    match key_index(s, k) {
        Some(i) => {
            assert forall|a: int, b: int| 0 <= a < b < t.len() implies #[trigger] t[a].0 != #[trigger] t[b].0 by {
                let a2 = if a < i { a } else { a + 1 };
                let b2 = if b < i { b } else { b + 1 };
                assert(t[a] == s[a2] && t[b] == s[b2]);
            }
        },
        None => {},
    }
}

/// Looking a key up after a merge: a key of the overlay holds the overlay's value merged
/// onto the base's value (or the overlay's value where the base lacks the key); any other
/// key keeps the base's value.
pub proof fn law_merge_lookup(b: Seq<(Seq<char>, Json)>, o: Seq<(Seq<char>, Json)>, k: Seq<char>)
    requires
        keys_distinct(o),
    ensures
        assoc_get(merge_entries_spec(b, o), k) == (match assoc_get(o, k) {
            Some(v) => match assoc_get(b, k) {
                Some(x) => Some(merge_spec(x, v)),
                None => Some(v),
            },
            None => assoc_get(b, k),
        }),
    decreases o.len(),
{
    if o.len() > 0 {
        let o1 = o.drop_last();
        lemma_keys_distinct_drop_last(o);
        law_merge_lookup(b, o1, k);
        let r1 = merge_entries_spec(b, o1);
        let kn = o.last().0;
        let vn = o.last().1;
        assert(o =~= o1.push(o.last()));
        lemma_key_index_push(o1, o.last(), k);
        lemma_key_index(r1, kn);
        lemma_key_index(o1, k);
        lemma_key_index(r1, k);
        match key_index(o1, k) {
            Some(i) => {
                assert(o[i] == o1[i]);
            },
            None => {},
        }
        let r = merge_entries_spec(b, o);
        match key_index(r1, kn) {
            Some(p) => {
                assert(r1[p].0 == kn);
                lemma_key_index_update(r1, p, merge_spec(r1[p].1, vn), k);
                assert(r == r1.update(p, (kn, merge_spec(r1[p].1, vn))));
                match key_index(r1, k) {
                    Some(i) => {
                        if i != p {
                            assert(r[i] == r1[i]);
                        }
                    },
                    None => {},
                }
            },
            None => {
                lemma_key_index_push(r1, (kn, vn), k);
                assert(r == r1.push((kn, vn)));
                match key_index(r1, k) {
                    Some(i) => {
                        assert(r[i] == r1[i]);
                    },
                    None => {},
                }
            },
        }
    }
}

/// A document is well formed when no object in it holds a key twice.
pub open spec fn json_wf(j: Json) -> bool
    decreases j,
{
    match j {
        Json::Arr(s) => items_wf(s),
        Json::Obj(s) => keys_distinct(s) && entries_wf(s),
        _ => true,
    }
}

pub open spec fn items_wf(s: Seq<Json>) -> bool
    decreases s,
{
    s.len() == 0 || (items_wf(s.drop_last()) && json_wf(s.last()))
}

pub open spec fn entries_wf(s: Seq<(Seq<char>, Json)>) -> bool
    decreases s,
{
    s.len() == 0 || (entries_wf(s.drop_last()) && json_wf(s.last().1))
}

pub proof fn lemma_entries_wf(s: Seq<(Seq<char>, Json)>)
    ensures
        entries_wf(s) <==> forall|i: int| 0 <= i < s.len() ==> #[trigger] json_wf(s[i].1),
    decreases s.len(),
{
    if s.len() > 0 {
        lemma_entries_wf(s.drop_last());
        if forall|i: int| 0 <= i < s.len() ==> #[trigger] json_wf(s[i].1) {
            assert forall|i: int| 0 <= i < s.len() - 1 implies #[trigger] json_wf(
                s.drop_last()[i].1,
            ) by {
                assert(s.drop_last()[i] == s[i]);
                assert(json_wf(s[i].1));
            }
            assert(json_wf(s[s.len() - 1].1));
        }
        if entries_wf(s) {
            assert forall|i: int| 0 <= i < s.len() implies #[trigger] json_wf(s[i].1) by {
                if i < s.len() - 1 {
                    assert(s.drop_last()[i] == s[i]);
                }
            }
        }
    }
}

/// Merging a well-formed document onto itself changes nothing.
pub proof fn law_merge_self(v: Json)
    requires
        json_wf(v),
    ensures
        merge_spec(v, v) == v,
    decreases v,
{
    if let Json::Obj(o) = v {
        lemma_entries_wf(o);
        lemma_merge_entries_self_prefix(o, o.len() as int);
        assert(o.take(o.len() as int) =~= o);
    }
}

proof fn lemma_merge_entries_self_prefix(o: Seq<(Seq<char>, Json)>, n: int)
    requires
        0 <= n <= o.len(),
        keys_distinct(o),
        forall|i: int| 0 <= i < o.len() ==> #[trigger] json_wf(o[i].1),
    ensures
        merge_entries_spec(o, o.take(n)) == o,
    decreases o, n,
{
    if n > 0 {
        lemma_merge_entries_self_prefix(o, n - 1);
        let t = o.take(n);
        assert(t.drop_last() =~= o.take(n - 1));
        let k = o[n - 1].0;
        let v = o[n - 1].1;
        assert(t.last() == o[n - 1]);
        assert forall|j: int| 0 <= j < n - 1 implies #[trigger] o[j].0 != k by {}
        lemma_key_index_unique(o, k, n - 1);
        assert(decreases_to!(o => o[n - 1]));
        assert(decreases_to!(o[n - 1] => o[n - 1].1));
        law_merge_self(v);
        assert(o.update(n - 1, (k, merge_spec(v, v))) =~= o);
    } else {
        assert(o.take(0) =~= Seq::<(Seq<char>, Json)>::empty());
    }
}

/// Merging the same well-formed overlay twice gives what merging it once gives.
pub proof fn law_merge_idempotent(base: Json, overlay: Json)
    requires
        json_wf(overlay),
    ensures
        merge_spec(merge_spec(base, overlay), overlay) == merge_spec(base, overlay),
    decreases overlay,
{
    match overlay {
        Json::Obj(o) => match base {
            Json::Obj(b) => {
                lemma_entries_wf(o);
                let r = merge_entries_spec(b, o);
                lemma_merge_entries_again_prefix(b, o, o.len() as int);
                assert(o.take(o.len() as int) =~= o);
            },
            _ => {
                law_merge_self(overlay);
            },
        },
        _ => {},
    }
}

proof fn lemma_merge_entries_again_prefix(b: Seq<(Seq<char>, Json)>, o: Seq<(Seq<char>, Json)>, n: int)
    requires
        0 <= n <= o.len(),
        keys_distinct(o),
        forall|i: int| 0 <= i < o.len() ==> #[trigger] json_wf(o[i].1),
    ensures
        merge_entries_spec(merge_entries_spec(b, o), o.take(n)) == merge_entries_spec(b, o),
    decreases o, n,
{
    let r = merge_entries_spec(b, o);
    if n > 0 {
        lemma_merge_entries_again_prefix(b, o, n - 1);
        let t = o.take(n);
        assert(t.drop_last() =~= o.take(n - 1));
        let k = o[n - 1].0;
        let v = o[n - 1].1;
        assert(t.last() == o[n - 1]);
        lemma_key_index_unique(o, k, n - 1);
        assert forall|j: int| 0 <= j < n - 1 implies #[trigger] o[j].0 != k by {}
        lemma_key_index_unique(o, k, n - 1);
        law_merge_lookup(b, o, k);
        lemma_key_index(r, k);
        assert(decreases_to!(o => o[n - 1]));
        assert(decreases_to!(o[n - 1] => o[n - 1].1));
        match key_index(r, k) {
            Some(p) => {
                match assoc_get(b, k) {
                    Some(x) => {
                        law_merge_idempotent(x, v);
                    },
                    None => {
                        law_merge_self(v);
                    },
                }
                assert(r.update(p, (k, merge_spec(r[p].1, v))) =~= r);
            },
            None => {},
        }
    } else {
        assert(o.take(0) =~= Seq::<(Seq<char>, Json)>::empty());
    }
}

/// Merging an empty object onto an object changes nothing.
pub proof fn law_merge_empty_overlay(b: Seq<(Seq<char>, Json)>)
    ensures
        merge_spec(Json::Obj(b), Json::Obj(Seq::empty())) == Json::Obj(b),
{
}

/// An overlay that is not an object replaces the base, whatever the base is.
pub proof fn law_merge_scalar_overlay(base: Json, overlay: Json)
    requires
        !(overlay is Obj),
    ensures
        merge_spec(base, overlay) == overlay,
{
}


/// Reading a key after setting it gives what was set.
pub proof fn law_assoc_get_insert(s: Seq<(Seq<char>, Json)>, k: Seq<char>, v: Json)
    ensures
        assoc_get(assoc_insert(s, k, v), k) == Some(v),
{
    lemma_key_index(s, k);
    match key_index(s, k) {
        Some(i) => {
            let t = s.update(i, (k, v));
            assert forall|j: int| 0 <= j < i implies #[trigger] t[j].0 != k by {
                assert(t[j] == s[j]);
            }
            lemma_key_index_unique(t, k, i);
        },
        None => {
            lemma_key_index_push(s, (k, v), k);
        },
    }
}

/// Reading a key after removing it from an object without repeated keys finds nothing.
pub proof fn law_assoc_get_remove(s: Seq<(Seq<char>, Json)>, k: Seq<char>)
    requires
        keys_distinct(s),
    ensures
        assoc_get(assoc_remove(s, k), k) is None,
{
    lemma_key_index(s, k);
    match key_index(s, k) {
        Some(i) => {
            let t = s.remove(i);
            lemma_key_index(t, k);
            match key_index(t, k) {
                Some(m) => {
                    if m < i {
                        assert(t[m] == s[m]);
                    } else {
                        assert(t[m] == s[m + 1]);
                        assert(s[i].0 != s[m + 1].0);
                    }
                },
                None => {},
            }
        },
        None => {},
    }
}

} // verus!
