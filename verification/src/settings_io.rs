use vstd::prelude::*;

use crate::colors::argb_to_rgba;
use crate::json::{
    assoc_get, assoc_insert, assoc_remove, entries_insert, entries_remove, entry_position, key_index,
    keys_distinct, law_assoc_get_insert, law_assoc_get_remove, lemma_key_index,
    lemma_key_index_push, lemma_key_index_update, lemma_keys_distinct_drop_last, lemma_view_entries,
    lemma_view_items, merge_json, merge_spec, view_entries, view_items, view_value, Json, JsonNumber,
    JsonValue, lemma_get_insert_other, lemma_get_remove_other, lemma_insert_keeps_distinct,
    lemma_remove_keeps_distinct,
};
use crate::platform::Platform;
use crate::text::{
    eq_ignore_ascii_case, eq_ignore_ascii_case_spec, has_no_ascii_upper, is_ascii_text, join_spec,
    join_with, lemma_lower_text_settles, lemma_lower_text_unchanged, lemma_split_join,
    lemma_split_pieces_lack_sep, lemma_trimmed_idempotent, lemma_trimmed_unchanged, lower_text,
    split_on, split_spec, str_eq, string_of, to_lowercase, trim, trimmed,
};

verus! {

broadcast use vstd::string::group_string_axioms;

// ---------------------------------------------------------------------------
// What sanitizing a settings document means
// ---------------------------------------------------------------------------
/// The `[r, g, b, a]` array of a color held as `0xAARRGGBB`.
pub open spec fn rgba_array_of(argb: u64) -> Json {
    Json::Arr(
        seq![
            Json::Num(JsonNumber::PosInt((argb / 0x10000) % 256)),
            Json::Num(JsonNumber::PosInt((argb / 0x100) % 256)),
            Json::Num(JsonNumber::PosInt(argb % 256)),
            Json::Num(JsonNumber::PosInt((argb / 0x1000000) % 256)),
        ],
    )
}

/// A legacy `border_color` held as one number is turned into `[r, g, b, a]`.
pub open spec fn migrate_border_color(s: Seq<(Seq<char>, Json)>) -> Seq<(Seq<char>, Json)> {
    match assoc_get(s, "border_color"@) {
        Some(Json::Num(JsonNumber::PosInt(n))) => if n <= 0xFFFF_FFFF {
            assoc_insert(s, "border_color"@, rgba_array_of(n))
        } else {
            s
        },
        _ => s,
    }
}

/// Whether a `capture_method` name cannot be used on the platform.
pub open spec fn capture_method_unsupported(cm: Seq<char>, p: Platform) -> bool {
    cm == "auto"@ || if p == Platform::Windows {
        cm == "CoreGraphics"@
    } else {
        cm == "Wgc"@ || cm == "GdiCopy"@
    }
}

pub open spec fn drop_unsupported_capture_method(s: Seq<(Seq<char>, Json)>, p: Platform) -> Seq<
    (Seq<char>, Json),
> {
    match assoc_get(s, "capture_method"@) {
        Some(Json::Str(cm)) => if capture_method_unsupported(cm, p) {
            assoc_remove(s, "capture_method"@)
        } else {
            s
        },
        _ => s,
    }
}

pub open spec fn drop_unsupported_preview_mode(s: Seq<(Seq<char>, Json)>, p: Platform) -> Seq<
    (Seq<char>, Json),
> {
    if p != Platform::Windows && assoc_get(s, "preview_mode"@) == Some(Json::Str("WinApiGdi"@)) {
        assoc_remove(s, "preview_mode"@)
    } else {
        s
    }
}

/// On macOS the preview window is always captured.
pub open spec fn force_capture_preview_window(s: Seq<(Seq<char>, Json)>, p: Platform) -> Seq<
    (Seq<char>, Json),
> {
    if p == Platform::MacOS && assoc_get(s, "capture_preview_window"@) != Some(Json::Bool(true)) {
        assoc_insert(s, "capture_preview_window"@, Json::Bool(true))
    } else {
        s
    }
}

/// The window filter mode name that a lower-cased mode name stands for.
pub open spec fn filter_mode_name(lowered: Seq<char>) -> Seq<char> {
    if lowered == "none"@ {
        "none"@
    } else if lowered == "exclude"@ || lowered == "exclude_list"@ {
        "exclude_list"@
    } else if lowered == "include"@ || lowered == "include_only"@ {
        "include_only"@
    } else {
        lowered
    }
}

/// The `window_filter` section with the preview always excluded, its mode normalized,
/// and an include list present.
pub open spec fn normalize_filter_entries(w: Seq<(Seq<char>, Json)>) -> Seq<(Seq<char>, Json)> {
    let w1 = assoc_insert(w, "auto_exclude_preview"@, Json::Bool(true));
    let w2 = match assoc_get(w1, "mode"@) {
        Some(Json::Str(m)) => assoc_insert(w1, "mode"@, Json::Str(filter_mode_name(lower_text(m)))),
        _ => w1,
    };
    if assoc_get(w2, "included_windows"@) is None {
        assoc_insert(w2, "included_windows"@, Json::Arr(Seq::empty()))
    } else {
        w2
    }
}

pub open spec fn normalize_window_filter(s: Seq<(Seq<char>, Json)>) -> Seq<(Seq<char>, Json)> {
    match assoc_get(s, "window_filter"@) {
        Some(Json::Obj(w)) => assoc_insert(s, "window_filter"@, Json::Obj(normalize_filter_entries(w))),
        _ => s,
    }
}

/// A shortcut token after the legacy `Plus` token became `Equal`.
pub open spec fn rewrite_token(t: Seq<char>) -> Seq<char> {
    if eq_ignore_ascii_case_spec(t, "plus"@) || t == "+"@ {
        "Equal"@
    } else {
        t
    }
}

/// The tokens of the pieces of a shortcut: trimmed, empty ones left out, rewritten.
pub open spec fn tokens_of(pieces: Seq<Seq<char>>) -> Seq<Seq<char>>
    decreases pieces.len(),
{
    if pieces.len() == 0 {
        Seq::empty()
    } else {
        let rest = tokens_of(pieces.drop_last());
        let t = trimmed(pieces.last());
        if t.len() == 0 {
            rest
        } else {
            rest.push(rewrite_token(t))
        }
    }
}

/// The tokens of a shortcut such as `CmdOrCtrl+Shift+R`.
pub open spec fn shortcut_tokens(raw: Seq<char>) -> Seq<Seq<char>> {
    tokens_of(split_spec(raw, '+'))
}

/// The normalized form of a shortcut, where it has a token.
pub open spec fn normalized_shortcut(raw: Seq<char>) -> Option<Seq<char>> {
    let toks = shortcut_tokens(raw);
    if toks.len() > 0 {
        Some(join_spec(toks, "+"@))
    } else {
        None
    }
}

pub open spec fn normalize_shortcut_key(sc: Seq<(Seq<char>, Json)>, key: Seq<char>) -> Seq<
    (Seq<char>, Json),
> {
    match assoc_get(sc, key) {
        Some(Json::Str(raw)) => match normalized_shortcut(raw) {
            Some(n) => assoc_insert(sc, key, Json::Str(n)),
            None => sc,
        },
        _ => sc,
    }
}

pub open spec fn normalize_shortcut_entries(sc: Seq<(Seq<char>, Json)>) -> Seq<(Seq<char>, Json)> {
    let a = normalize_shortcut_key(sc, "start_capture"@);
    let b = normalize_shortcut_key(a, "stop_capture"@);
    let c = normalize_shortcut_key(b, "zoom_in"@);
    normalize_shortcut_key(c, "zoom_out"@)
}

pub open spec fn normalize_shortcuts(s: Seq<(Seq<char>, Json)>) -> Seq<(Seq<char>, Json)> {
    match assoc_get(s, "shortcuts"@) {
        Some(Json::Obj(sc)) => assoc_insert(s, "shortcuts"@, Json::Obj(normalize_shortcut_entries(sc))),
        _ => s,
    }
}

/// A settings document migrated to the current schema for the platform: each step in turn.
pub open spec fn sanitize_entries(s: Seq<(Seq<char>, Json)>, p: Platform) -> Seq<(Seq<char>, Json)> {
    let s1 = migrate_border_color(s);
    let s2 = drop_unsupported_capture_method(s1, p);
    let s3 = drop_unsupported_preview_mode(s2, p);
    let s4 = force_capture_preview_window(s3, p);
    let s5 = normalize_window_filter(s4);
    normalize_shortcuts(s5)
}

pub open spec fn sanitize_spec(v: Json, p: Platform) -> Json {
    match v {
        Json::Obj(s) => Json::Obj(sanitize_entries(s, p)),
        _ => v,
    }
}

// ---------------------------------------------------------------------------
// Sanitizing
// ---------------------------------------------------------------------------
/// The entry of `entries` under `key`.
fn lookup<'a>(entries: &'a Vec<(String, JsonValue)>, key: &str) -> (r: Option<&'a JsonValue>)
    ensures
        match r {
            Some(v) => assoc_get(view_entries(entries@), key@) == Some(v@),
            None => assoc_get(view_entries(entries@), key@) is None,
        },
{
    proof {
        lemma_view_entries(entries@);
        lemma_key_index(view_entries(entries@), key@);
    }
    match entry_position(entries, key) {
        Some(i) => Some(&entries[i].1),
        None => None,
    }
}

fn set_entry(entries: &mut Vec<(String, JsonValue)>, key: &str, value: JsonValue)
    ensures
        view_entries(final(entries)@) == assoc_insert(view_entries(old(entries)@), key@, value@),
{
    entries_insert(entries, string_of(key), value);
}

fn migrate_border_color_exec(entries: &mut Vec<(String, JsonValue)>)
    ensures
        view_entries(final(entries)@) == migrate_border_color(view_entries(old(entries)@)),
{
    let n = match lookup(entries, "border_color") {
        Some(v) => v.as_u64(),
        None => None,
    };
    if let Some(n) = n {
        if n <= 0xFFFF_FFFF {
            let rgba = argb_to_rgba(n as u32);
            let items = vec![
                JsonValue::Number(JsonNumber::PosInt(rgba[0] as u64)),
                JsonValue::Number(JsonNumber::PosInt(rgba[1] as u64)),
                JsonValue::Number(JsonNumber::PosInt(rgba[2] as u64)),
                JsonValue::Number(JsonNumber::PosInt(rgba[3] as u64)),
            ];
            proof {
                lemma_view_items(items@);
                assert(view_items(items@) =~= rgba_array_of(n)->Arr_0);
            }
            set_entry(entries, "border_color", JsonValue::Array(items));
        }
    }
}

/// Whether `cm` names a capture method that cannot be used on `platform`.
pub fn is_capture_method_unsupported(cm: &str, platform: Platform) -> (r: bool)
    ensures
        r == capture_method_unsupported(cm@, platform),
{
    str_eq(cm, "auto") || match platform {
        Platform::Windows => str_eq(cm, "CoreGraphics"),
        _ => str_eq(cm, "Wgc") || str_eq(cm, "GdiCopy"),
    }
}

fn drop_capture_method_exec(entries: &mut Vec<(String, JsonValue)>, p: Platform)
    ensures
        view_entries(final(entries)@) == drop_unsupported_capture_method(
            view_entries(old(entries)@),
            p,
        ),
{
    let drop = match lookup(entries, "capture_method") {
        Some(v) => match v.as_str() {
            Some(cm) => is_capture_method_unsupported(cm, p),
            None => false,
        },
        None => false,
    };
    if drop {
        entries_remove(entries, "capture_method");
    }
}

fn drop_preview_mode_exec(entries: &mut Vec<(String, JsonValue)>, p: Platform)
    ensures
        view_entries(final(entries)@) == drop_unsupported_preview_mode(
            view_entries(old(entries)@),
            p,
        ),
{
    if p != Platform::Windows {
        let drop = match lookup(entries, "preview_mode") {
            Some(v) => match v.as_str() {
                Some(pm) => str_eq(pm, "WinApiGdi"),
                None => false,
            },
            None => false,
        };
        if drop {
            entries_remove(entries, "preview_mode");
        }
    }
}

fn force_capture_preview_exec(entries: &mut Vec<(String, JsonValue)>, p: Platform)
    ensures
        view_entries(final(entries)@) == force_capture_preview_window(
            view_entries(old(entries)@),
            p,
        ),
{
    if p == Platform::MacOS {
        let current = match lookup(entries, "capture_preview_window") {
            Some(v) => v.as_bool(),
            None => None,
        };
        if current != Some(true) {
            set_entry(entries, "capture_preview_window", JsonValue::Bool(true));
        }
    }
}

/// The window filter mode name that a lower-cased mode name stands for.
pub fn normalize_filter_mode(lowered: &str) -> (r: String)
    ensures
        r@ == filter_mode_name(lowered@),
{
    if str_eq(lowered, "none") {
        string_of("none")
    } else if str_eq(lowered, "exclude") || str_eq(lowered, "exclude_list") {
        string_of("exclude_list")
    } else if str_eq(lowered, "include") || str_eq(lowered, "include_only") {
        string_of("include_only")
    } else {
        string_of(lowered)
    }
}

fn normalize_filter_exec(w: &mut Vec<(String, JsonValue)>)
    ensures
        view_entries(final(w)@) == normalize_filter_entries(view_entries(old(w)@)),
{
    set_entry(w, "auto_exclude_preview", JsonValue::Bool(true));
    let mode = match lookup(w, "mode") {
        Some(v) => match v.as_str() {
            Some(m) => {
                let lowered = to_lowercase(m);
                proof {
                    if is_ascii_text(m@) {
                        assert(lowered@ == lower_text(m@));
                    }
                }
                Some(normalize_filter_mode(lowered.as_str()))
            },
            None => None,
        },
        None => None,
    };
    if let Some(m) = mode {
        set_entry(w, "mode", JsonValue::String(m));
    }
    let has_included = lookup(w, "included_windows").is_some();
    if !has_included {
        set_entry(w, "included_windows", JsonValue::Array(Vec::new()));
        proof {
            lemma_view_items(Seq::<JsonValue>::empty());
        }
    }
}

/// Applies `edit` to the object under `key`, where there is one.
fn take_object(entries: &mut Vec<(String, JsonValue)>, key: &str) -> (r: Option<(usize, String, Vec<(String, JsonValue)>)>)
    ensures
        match r {
            Some((p, k, obj)) => {
                &&& k@ == key@
                &&& p < old(entries)@.len()
                &&& assoc_get(view_entries(old(entries)@), key@) == Some(Json::Obj(view_entries(obj@)))
                &&& key_index(view_entries(old(entries)@), key@) == Some(p as int)
                &&& final(entries)@ == old(entries)@.remove(p as int)
            },
            None => {
                &&& !(assoc_get(view_entries(old(entries)@), key@) matches Some(Json::Obj(_)))
                &&& final(entries)@ == old(entries)@
            },
        },
{
    proof {
        lemma_view_entries(entries@);
    }
    match entry_position(entries, key) {
        Some(p) => {
            if entries[p].1.is_object() {
                proof {
                    lemma_key_index(view_entries(entries@), key@);
                }
                let (k, v) = entries.remove(p);
                match v {
                    JsonValue::Object(obj) => Some((p, k, obj)),
                    _ => None,
                }
            } else {
                None
            }
        },
        None => None,
    }
}

/// Puts back at position `p` what `take_object` took.
fn put_object(
    entries: &mut Vec<(String, JsonValue)>,
    p: usize,
    k: String,
    obj: Vec<(String, JsonValue)>,
    Ghost(orig): Ghost<Seq<(String, JsonValue)>>,
)
    requires
        p < orig.len(),
        old(entries)@ == orig.remove(p as int),
        key_index(view_entries(orig), k@) == Some(p as int),
    ensures
        view_entries(final(entries)@) == assoc_insert(
            view_entries(orig),
            k@,
            Json::Obj(view_entries(obj@)),
        ),
{
    let ghost newv = JsonValue::Object(obj);
    entries.insert(p, (k, JsonValue::Object(obj)));
    proof {
        lemma_view_entries(orig);
        lemma_view_entries(entries@);
        lemma_key_index(view_entries(orig), k@);
        assert(entries@ =~= orig.update(p as int, entries@[p as int]));
        assert(view_entries(entries@) =~= view_entries(orig).update(
            p as int,
            (k@, Json::Obj(view_entries(obj@))),
        ));
    }
}

fn normalize_window_filter_exec(entries: &mut Vec<(String, JsonValue)>)
    ensures
        view_entries(final(entries)@) == normalize_window_filter(view_entries(old(entries)@)),
{
    let ghost orig = entries@;
    match take_object(entries, "window_filter") {
        Some((p, k, mut w)) => {
            normalize_filter_exec(&mut w);
            put_object(entries, p, k, w, Ghost(orig));
        },
        None => {},
    }
}

/// The normalized form of a shortcut such as `CmdOrCtrl+Shift+Plus`: its tokens trimmed,
/// empty ones left out, the legacy `Plus` token written `Equal`, joined by `+`. None where
/// it has no token.
pub fn normalize_shortcut(raw: &str) -> (r: Option<String>)
    ensures
        match r {
            Some(s) => normalized_shortcut(raw@) == Some(s@),
            None => normalized_shortcut(raw@) is None,
        },
{
    let pieces = split_on(raw, '+');
    let mut tokens: Vec<String> = Vec::new();
    let ghost sp = split_spec(raw@, '+');
    let mut i: usize = 0;
    proof {
        assert(sp.take(0) =~= Seq::<Seq<char>>::empty());
    }
    while i < pieces.len()
        invariant
            i <= pieces@.len(),
            pieces@.len() == sp.len(),
            sp == split_spec(raw@, '+'),
            forall|j: int| 0 <= j < pieces@.len() ==> #[trigger] pieces@[j]@ == sp[j],
            tokens@.map_values(|t: String| t@) == tokens_of(sp.take(i as int)),
        decreases pieces@.len() - i,
    {
        proof {
            assert(sp.take(i + 1).drop_last() =~= sp.take(i as int));
            assert(sp.take(i + 1).last() == pieces@[i as int]@);
        }
        let trimmed_piece = trim(pieces[i].as_str());
        let t = trimmed_piece.as_str();
        if !t.is_empty() {
            let tok = if eq_ignore_ascii_case(t, "plus") || str_eq(t, "+") {
                string_of("Equal")
            } else {
                string_of(t)
            };
            let ghost before = tokens@;
            tokens.push(tok);
            proof {
                assert(tokens@.map_values(|t: String| t@) =~= before.map_values(|t: String| t@).push(
                    tok@,
                ));
            }
        } else {
            proof {
                assert(t@.len() == 0);
            }
        }
        i = i + 1;
    }
    proof {
        assert(sp.take(pieces@.len() as int) =~= sp);
    }
    if tokens.len() > 0 {
        Some(join_with(&tokens, "+"))
    } else {
        None
    }
}

fn normalize_shortcut_key_exec(sc: &mut Vec<(String, JsonValue)>, key: &str)
    ensures
        view_entries(final(sc)@) == normalize_shortcut_key(view_entries(old(sc)@), key@),
{
    let normalized = match lookup(sc, key) {
        Some(JsonValue::String(raw)) => normalize_shortcut(raw.as_str()),
        _ => None,
    };
    if let Some(n) = normalized {
        set_entry(sc, key, JsonValue::String(n));
    }
}

fn normalize_shortcuts_exec(entries: &mut Vec<(String, JsonValue)>)
    ensures
        view_entries(final(entries)@) == normalize_shortcuts(view_entries(old(entries)@)),
{
    let ghost orig = entries@;
    match take_object(entries, "shortcuts") {
        Some((p, k, mut sc)) => {
            normalize_shortcut_key_exec(&mut sc, "start_capture");
            normalize_shortcut_key_exec(&mut sc, "stop_capture");
            normalize_shortcut_key_exec(&mut sc, "zoom_in");
            normalize_shortcut_key_exec(&mut sc, "zoom_out");
            put_object(entries, p, k, sc, Ghost(orig));
        },
        None => {},
    }
}

/// Migrates a settings document to the current schema for `platform` (see
/// `sanitize_entries`); a document that is not an object is left as it is.
pub fn sanitize_settings_json_for_platform(value: &mut JsonValue, platform: Platform)
    ensures
        final(value)@ == sanitize_spec(old(value)@, platform),
{
    if value.is_object() {
        let mut current = JsonValue::Null;
        std::mem::swap(value, &mut current);
        match current {
            JsonValue::Object(mut entries) => {
                migrate_border_color_exec(&mut entries);
                drop_capture_method_exec(&mut entries, platform);
                drop_preview_mode_exec(&mut entries, platform);
                force_capture_preview_exec(&mut entries, platform);
                normalize_window_filter_exec(&mut entries);
                normalize_shortcuts_exec(&mut entries);
                *value = JsonValue::Object(entries);
            },
            other => {
                *value = other;
            },
        }
    }
}


// ---------------------------------------------------------------------------
// Merging that keeps hidden keys
// ---------------------------------------------------------------------------
/// The names held by a list of strings.
pub open spec fn names_of(v: Seq<String>) -> Seq<Seq<char>> {
    v.map_values(|s: String| s@)
}

/// As `merge_spec`, except that an overlay entry that sets a hidden key to null is left
/// out, so that the base keeps its value there.
pub open spec fn merge_hidden_spec(base: Json, overlay: Json, hidden: Seq<Seq<char>>) -> Json
    decreases overlay,
{
    match overlay {
        Json::Obj(o) => match base {
            Json::Obj(b) => Json::Obj(merge_hidden_entries_spec(b, o, hidden)),
            _ => overlay,
        },
        _ => overlay,
    }
}

pub open spec fn merge_hidden_entries_spec(
    b: Seq<(Seq<char>, Json)>,
    o: Seq<(Seq<char>, Json)>,
    hidden: Seq<Seq<char>>,
) -> Seq<(Seq<char>, Json)>
    decreases o,
{
    if o.len() == 0 {
        b
    } else {
        let r = merge_hidden_entries_spec(b, o.drop_last(), hidden);
        let k = o.last().0;
        let v = o.last().1;
        if hidden.contains(k) && v is Null {
            r
        } else {
            match key_index(r, k) {
                Some(p) => r.update(p, (k, merge_hidden_spec(r[p].1, v, hidden))),
                None => r.push((k, v)),
            }
        }
    }
}

/// Whether `k` is one of `hidden`.
fn contains_key_name(hidden: &Vec<String>, k: &str) -> (r: bool)
    ensures
        r == names_of(hidden@).contains(k@),
{
    let mut i: usize = 0;
    while i < hidden.len()
        invariant
            i <= hidden@.len(),
            forall|j: int| 0 <= j < i ==> #[trigger] hidden@[j]@ != k@,
        decreases hidden@.len() - i,
    {
        if str_eq(hidden[i].as_str(), k) {
            proof {
                assert(names_of(hidden@)[i as int] == k@);
            }
            return true;
        }
        i = i + 1;
    }
    proof {
        if names_of(hidden@).contains(k@) {
            let j = choose|j: int| 0 <= j < names_of(hidden@).len() && names_of(hidden@)[j] == k@;
            assert(hidden@[j]@ == k@);
        }
    }
    false
}

/// Merges `overlay` onto `base` (see `merge_hidden_spec`).
pub fn merge_json_preserve_hidden(base: &mut JsonValue, overlay: JsonValue, hidden_keys: &Vec<String>)
    ensures
        final(base)@ == merge_hidden_spec(old(base)@, overlay@, names_of(hidden_keys@)),
    decreases overlay,
{
    let ghost ov = overlay;
    match overlay {
        JsonValue::Object(oentries) => {
            let mut current = JsonValue::Null;
            std::mem::swap(base, &mut current);
            match current {
                JsonValue::Object(mut bentries) => {
                    merge_hidden_entries(&mut bentries, oentries, hidden_keys, Ghost(ov));
                    *base = JsonValue::Object(bentries);
                },
                other => {
                    *base = JsonValue::Object(oentries);
                },
            }
        },
        other => {
            *base = other;
        },
    }
}

fn merge_hidden_entries(
    bentries: &mut Vec<(String, JsonValue)>,
    oentries: Vec<(String, JsonValue)>,
    hidden_keys: &Vec<String>,
    Ghost(ov): Ghost<JsonValue>,
)
    requires
        ov == JsonValue::Object(oentries),
    ensures
        view_entries(final(bentries)@) == merge_hidden_entries_spec(
            view_entries(old(bentries)@),
            view_entries(oentries@),
            names_of(hidden_keys@),
        ),
    decreases ov, 0nat,
{
    let ghost b0 = view_entries(bentries@);
    let ghost o0 = oentries@;
    let ghost ov0 = view_entries(o0);
    proof {
        lemma_view_entries(o0);
        assert(o0.skip(0) =~= o0);
        assert(ov0.take(0) =~= Seq::<(Seq<char>, Json)>::empty());
    }
    let mut rest = oentries;
    let ghost mut i: int = 0;
    while rest.len() > 0
        invariant
            0 <= i <= o0.len(),
            rest@ == o0.skip(i),
            ov0 == view_entries(o0),
            ov0.len() == o0.len(),
            forall|j: int| 0 <= j < o0.len() ==> #[trigger] ov0[j] == (o0[j].0@, view_value(o0[j].1)),
            ov == JsonValue::Object(oentries),
            o0 == oentries@,
            view_entries(bentries@) == merge_hidden_entries_spec(b0, ov0.take(i), names_of(hidden_keys@)),
        decreases rest@.len(),
    {
        let ghost before = bentries@;
        let (k, v) = rest.remove(0);
        proof {
            assert(o0[i] == (k, v));
            assert(rest@ =~= o0.skip(i + 1));
            assert(ov0.take(i + 1).drop_last() =~= ov0.take(i));
            assert(ov0.take(i + 1).last() == (k@, view_value(v)));
            lemma_view_entries(before);
            assert(ov->Object_0 == oentries);
            assert(decreases_to!(ov => ov->Object_0));
            assert(decreases_to!(oentries => oentries@));
            assert(decreases_to!(oentries@ => oentries@[i]));
            assert(decreases_to!(oentries@[i] => oentries@[i].1));
            assert(decreases_to!(ov => v));
        }
        let skip = contains_key_name(hidden_keys, k.as_str()) && v.is_null();
        if !skip {
            match entry_position(bentries, k.as_str()) {
                Some(p) => {
                    let (bk, mut bv) = bentries.remove(p);
                    let ghost bvv = bv@;
                    merge_json_preserve_hidden(&mut bv, v, hidden_keys);
                    let ghost bkv = bk@;
                    bentries.insert(p, (bk, bv));
                    proof {
                        assert(bentries@ =~= before.update(
                            p as int,
                            (bentries@[p as int].0, bentries@[p as int].1),
                        ));
                        lemma_key_index(view_entries(before), k@);
                        assert(view_entries(before)[p as int].0 == k@);
                        assert(bkv == k@);
                        lemma_view_entries(bentries@);
                        assert(view_entries(bentries@) =~= view_entries(before).update(
                            p as int,
                            (k@, merge_hidden_spec(bvv, view_value(v), names_of(hidden_keys@))),
                        ));
                    }
                },
                None => {
                    bentries.push((k, v));
                    proof {
                        assert(bentries@.drop_last() =~= before);
                    }
                },
            }
        }
        proof {
            i = i + 1;
        }
    }
    proof {
        assert(ov0.take(i) =~= ov0);
    }
}

/// The key that a settings document may set by hand and that saving never clears.
pub open spec fn hidden_settings_keys() -> Seq<Seq<char>> {
    seq!["debug_allow_screen_capture"@]
}

/// The document to write when `new_value` is saved over the settings file that held
/// `existing` (None where it could not be read or parsed): `new_value` merged onto it,
/// where a null for a hidden key keeps the file's value.
pub fn settings_document_for_save(existing: Option<JsonValue>, new_value: JsonValue) -> (r: JsonValue)
    ensures
        r@ == merge_hidden_spec(
            match existing {
                Some(e) => e@,
                None => Json::Obj(Seq::empty()),
            },
            new_value@,
            hidden_settings_keys(),
        ),
{
    let mut base = match existing {
        Some(e) => e,
        None => JsonValue::Object(Vec::new()),
    };
    proof {
        lemma_view_entries(Seq::<(String, JsonValue)>::empty());
    }
    let hidden = vec![string_of("debug_allow_screen_capture")];
    proof {
        assert(names_of(hidden@) =~= hidden_settings_keys());
    }
    merge_json_preserve_hidden(&mut base, new_value, &hidden);
    base
}

// ---------------------------------------------------------------------------
// The active profile in the settings document
// ---------------------------------------------------------------------------
/// The active profile that a settings document names.
pub fn read_active_profile_from_value(value: &JsonValue) -> (r: Option<String>)
    ensures
        match r {
            Some(p) => value@.get("active_profile"@) == Some(Json::Str(p@)),
            None => !(value@.get("active_profile"@) matches Some(Json::Str(_))),
        },
{
    match value.get("active_profile") {
        Some(v) => match v.as_str() {
            Some(s) => Some(string_of(s)),
            None => None,
        },
        None => None,
    }
}

/// The settings document with its active profile set to `profile` (removed for None).
/// A document that is not an object is replaced by an empty object first.
pub open spec fn with_active_profile(v: Json, profile: Option<Seq<char>>) -> Json {
    let s = match v {
        Json::Obj(s) => s,
        _ => Seq::empty(),
    };
    Json::Obj(
        match profile {
            Some(p) => assoc_insert(s, "active_profile"@, Json::Str(p)),
            None => assoc_remove(s, "active_profile"@),
        },
    )
}

/// Sets the active profile of a settings document (see `with_active_profile`).
pub fn write_active_profile_to_value(value: JsonValue, profile: Option<String>) -> (r: JsonValue)
    ensures
        r@ == with_active_profile(
            value@,
            match profile {
                Some(p) => Some(p@),
                None => None,
            },
        ),
{
    let mut entries = match value {
        JsonValue::Object(entries) => entries,
        _ => Vec::new(),
    };
    proof {
        lemma_view_entries(Seq::<(String, JsonValue)>::empty());
    }
    match profile {
        Some(p) => {
            entries_insert(&mut entries, string_of("active_profile"), JsonValue::String(p));
        },
        None => {
            entries_remove(&mut entries, "active_profile");
        },
    }
    JsonValue::Object(entries)
}


/// Reading the active profile back from a settings document after writing it gives what
/// was written.
pub proof fn law_active_profile_roundtrip(v: Json, profile: Option<Seq<char>>)
    requires
        v matches Json::Obj(s) ==> keys_distinct(s),
    ensures
        with_active_profile(v, profile).get("active_profile"@) == (match profile {
            Some(p) => Some(Json::Str(p)),
            None => None,
        }),
{
    let s = match v {
        Json::Obj(s) => s,
        _ => Seq::empty(),
    };
    match profile {
        Some(p) => {
            law_assoc_get_insert(s, "active_profile"@, Json::Str(p));
        },
        None => {
            law_assoc_get_remove(s, "active_profile"@);
        },
    }
}


/// Saving never clears a hidden key: where the new document sets a hidden key to null,
/// the merged document keeps the old value under it; every other key of the new document
/// is merged as `merge_spec` merges.
pub proof fn law_hidden_key_kept(
    b: Seq<(Seq<char>, Json)>,
    o: Seq<(Seq<char>, Json)>,
    hidden: Seq<Seq<char>>,
    k: Seq<char>,
)
    requires
        keys_distinct(o),
    ensures
        assoc_get(merge_hidden_entries_spec(b, o, hidden), k) == (match assoc_get(o, k) {
            Some(v) => if hidden.contains(k) && v is Null {
                assoc_get(b, k)
            } else {
                match assoc_get(b, k) {
                    Some(x) => Some(merge_hidden_spec(x, v, hidden)),
                    None => Some(v),
                }
            },
            None => assoc_get(b, k),
        }),
    decreases o.len(),
{
    if o.len() > 0 {
        let o1 = o.drop_last();
        lemma_keys_distinct_drop_last(o);
        law_hidden_key_kept(b, o1, hidden, k);
        let r1 = merge_hidden_entries_spec(b, o1, hidden);
        let kn = o.last().0;
        let vn = o.last().1;
        assert(o =~= o1.push(o.last()));
        lemma_key_index_push(o1, o.last(), k);
        lemma_key_index(r1, kn);
        lemma_key_index(o1, k);
        lemma_key_index(r1, k);
        match key_index(o1, k) {
            Some(i) => {
                assert(o[i] == o1[i]);
            },
            None => {},
        }
        let r = merge_hidden_entries_spec(b, o, hidden);
        if !(hidden.contains(kn) && vn is Null) {
            match key_index(r1, kn) {
                Some(p) => {
                    assert(r1[p].0 == kn);
                    lemma_key_index_update(r1, p, merge_hidden_spec(r1[p].1, vn, hidden), k);
                    assert(r == r1.update(p, (kn, merge_hidden_spec(r1[p].1, vn, hidden))));
                    match key_index(r1, k) {
                        Some(i) => {
                            if i != p {
                                assert(r[i] == r1[i]);
                            }
                        },
                        None => {},
                    }
                },
                None => {
                    lemma_key_index_push(r1, (kn, vn), k);
                    assert(r == r1.push((kn, vn)));
                    match key_index(r1, k) {
                        Some(i) => {
                            assert(r[i] == r1[i]);
                        },
                        None => {},
                    }
                },
            }
        }
    }
}


// ---------------------------------------------------------------------------
// Loading, first-run seeding and profile overrides
// ---------------------------------------------------------------------------
/// The document that stands for a settings file that could not be read or parsed.
pub open spec fn doc_or_empty(raw: Option<JsonValue>) -> Json {
    match raw {
        Some(v) => v@,
        None => Json::Obj(Seq::empty()),
    }
}

fn value_or_empty(raw: Option<JsonValue>) -> (r: JsonValue)
    ensures
        r@ == doc_or_empty(raw),
{
    proof {
        lemma_view_entries(Seq::<(String, JsonValue)>::empty());
    }
    match raw {
        Some(v) => v,
        None => JsonValue::Object(Vec::new()),
    }
}

/// The settings on disk, as a document, and the active profile they name: the file's
/// document (`raw`, None where it could not be read or parsed) is sanitized for the
/// platform and merged onto the document of the default settings, so that no key is
/// missing. The active profile is read before sanitizing.
pub fn settings_document_from_disk(raw: Option<JsonValue>, defaults: JsonValue, platform: Platform) -> (r: (
    JsonValue,
    Option<String>,
))
    ensures
        r.0@ == merge_spec(defaults@, sanitize_spec(doc_or_empty(raw), platform)),
        match r.1 {
            Some(p) => doc_or_empty(raw).get("active_profile"@) == Some(Json::Str(p@)),
            None => !(doc_or_empty(raw).get("active_profile"@) matches Some(Json::Str(_))),
        },
{
    let mut value = value_or_empty(raw);
    let active_profile = read_active_profile_from_value(&value);
    sanitize_settings_json_for_platform(&mut value, platform);
    let mut merged = defaults;
    merge_json(&mut merged, value);
    (merged, active_profile)
}

/// The settings document that a first run seeds: the platform's bundled defaults (None
/// where they could not be parsed) merged onto the document of the default settings,
/// then sanitized for the platform.
pub fn bootstrap_settings_document(defaults: JsonValue, bundled: Option<JsonValue>, platform: Platform) -> (r: JsonValue)
    ensures
        r@ == sanitize_spec(merge_spec(defaults@, doc_or_empty(bundled)), platform),
{
    let mut merged = defaults;
    merge_json(&mut merged, value_or_empty(bundled));
    sanitize_settings_json_for_platform(&mut merged, platform);
    merged
}

/// The document of settings with a profile's overrides applied: the overrides merged
/// onto the settings' document.
pub fn apply_profile_overrides_document(base: JsonValue, overrides: JsonValue) -> (r: JsonValue)
    ensures
        r@ == merge_spec(base@, overrides@),
{
    let mut merged = base;
    merge_json(&mut merged, overrides);
    merged
}

// ---------------------------------------------------------------------------
// What a sanitized document promises
// ---------------------------------------------------------------------------
proof fn lemma_key_literals()
    ensures
        "capture_method"@ != "border_color"@,
        "preview_mode"@ != "border_color"@,
        "preview_mode"@ != "capture_method"@,
        "capture_preview_window"@ != "border_color"@,
        "capture_preview_window"@ != "capture_method"@,
        "capture_preview_window"@ != "preview_mode"@,
        "window_filter"@ != "border_color"@,
        "window_filter"@ != "capture_method"@,
        "window_filter"@ != "preview_mode"@,
        "window_filter"@ != "capture_preview_window"@,
        "shortcuts"@ != "capture_method"@,
        "shortcuts"@ != "preview_mode"@,
        "shortcuts"@ != "capture_preview_window"@,
        "shortcuts"@ != "window_filter"@,
        "mode"@ != "auto_exclude_preview"@,
        "included_windows"@ != "auto_exclude_preview"@,
{
    reveal_strlit("capture_method");
    reveal_strlit("border_color");
    reveal_strlit("preview_mode");
    reveal_strlit("capture_preview_window");
    reveal_strlit("window_filter");
    reveal_strlit("shortcuts");
    reveal_strlit("mode");
    reveal_strlit("auto_exclude_preview");
    reveal_strlit("included_windows");
    assert("preview_mode"@[0] != "border_color"@[0]);
    assert("capture_method"@.len() != "border_color"@.len());
    assert("preview_mode"@.len() != "capture_method"@.len());
    assert("capture_preview_window"@.len() != "border_color"@.len());
    assert("capture_preview_window"@.len() != "capture_method"@.len());
    assert("capture_preview_window"@.len() != "preview_mode"@.len());
    assert("window_filter"@.len() != "border_color"@.len());
    assert("window_filter"@.len() != "capture_method"@.len());
    assert("window_filter"@.len() != "preview_mode"@.len());
    assert("window_filter"@.len() != "capture_preview_window"@.len());
    assert("shortcuts"@.len() != "capture_method"@.len());
    assert("shortcuts"@.len() != "preview_mode"@.len());
    assert("shortcuts"@.len() != "capture_preview_window"@.len());
    assert("shortcuts"@.len() != "window_filter"@.len());
    assert("mode"@.len() != "auto_exclude_preview"@.len());
    assert("included_windows"@.len() != "auto_exclude_preview"@.len());
}

/// A settings document sanitized for a platform fits it: the capture method it names, where
/// it names one, is one the platform has; off Windows it does not ask for the GDI preview;
/// on macOS it captures the preview window; and its window filter, where it has one,
/// always excludes the preview. (For an object whose keys are distinct, as those of a
/// parsed document are.)
pub proof fn law_sanitized_settings_fit_platform(s: Seq<(Seq<char>, Json)>, p: Platform)
    requires
        keys_distinct(s),
    ensures
        ({
            let t = sanitize_entries(s, p);
            &&& (assoc_get(t, "capture_method"@) matches Some(Json::Str(cm))
                ==> !capture_method_unsupported(cm, p))
            &&& (p != Platform::Windows ==> assoc_get(t, "preview_mode"@) != Some(
                Json::Str("WinApiGdi"@),
            ))
            &&& (p == Platform::MacOS ==> assoc_get(t, "capture_preview_window"@) == Some(
                Json::Bool(true),
            ))
            &&& (assoc_get(t, "window_filter"@) matches Some(Json::Obj(w)) ==> assoc_get(
                w,
                "auto_exclude_preview"@,
            ) == Some(Json::Bool(true)))
        }),
{
    lemma_key_literals();
    let cm = "capture_method"@;
    let pm = "preview_mode"@;
    let cp = "capture_preview_window"@;
    let wf = "window_filter"@;
    let sc = "shortcuts"@;
    let bc = "border_color"@;
    let s1 = migrate_border_color(s);
    let s2 = drop_unsupported_capture_method(s1, p);
    let s3 = drop_unsupported_preview_mode(s2, p);
    let s4 = force_capture_preview_window(s3, p);
    let s5 = normalize_window_filter(s4);
    let s6 = normalize_shortcuts(s5);
    // Step 1 keeps the keys distinct and touches only the border color.
    match assoc_get(s, bc) {
        Some(Json::Num(JsonNumber::PosInt(n))) => {
            if n <= 0xFFFF_FFFF {
                lemma_insert_keeps_distinct(s, bc, rgba_array_of(n));
                lemma_get_insert_other(s, bc, rgba_array_of(n), cm);
                lemma_get_insert_other(s, bc, rgba_array_of(n), pm);
            }
        },
        _ => {},
    }
    assert(keys_distinct(s1));
    // Step 2: an unsupported capture method is gone.
    match assoc_get(s1, cm) {
        Some(Json::Str(m)) => {
            if capture_method_unsupported(m, p) {
                law_assoc_get_remove(s1, cm);
                lemma_remove_keeps_distinct(s1, cm);
                lemma_get_remove_other(s1, cm, pm);
            }
        },
        _ => {},
    }
    assert(assoc_get(s2, cm) matches Some(Json::Str(m)) ==> !capture_method_unsupported(m, p));
    assert(keys_distinct(s2));
    // Step 3: the GDI preview is gone off Windows.
    if p != Platform::Windows && assoc_get(s2, pm) == Some(Json::Str("WinApiGdi"@)) {
        law_assoc_get_remove(s2, pm);
        lemma_get_remove_other(s2, pm, cm);
    }
    assert(assoc_get(s3, cm) == assoc_get(s2, cm));
    assert(p != Platform::Windows ==> assoc_get(s3, pm) != Some(Json::Str("WinApiGdi"@)));
    // Step 4: macOS captures the preview window.
    if p == Platform::MacOS && assoc_get(s3, cp) != Some(Json::Bool(true)) {
        law_assoc_get_insert(s3, cp, Json::Bool(true));
        lemma_get_insert_other(s3, cp, Json::Bool(true), cm);
        lemma_get_insert_other(s3, cp, Json::Bool(true), pm);
    }
    assert(assoc_get(s4, cm) == assoc_get(s3, cm));
    assert(assoc_get(s4, pm) == assoc_get(s3, pm));
    assert(p == Platform::MacOS ==> assoc_get(s4, cp) == Some(Json::Bool(true)));
    // Step 5: the window filter excludes the preview.
    match assoc_get(s4, wf) {
        Some(Json::Obj(w)) => {
            let ae = "auto_exclude_preview"@;
            let w1 = assoc_insert(w, ae, Json::Bool(true));
            law_assoc_get_insert(w, ae, Json::Bool(true));
            let w2 = match assoc_get(w1, "mode"@) {
                Some(Json::Str(m)) => assoc_insert(
                    w1,
                    "mode"@,
                    Json::Str(filter_mode_name(lower_text(m))),
                ),
                _ => w1,
            };
            match assoc_get(w1, "mode"@) {
                Some(Json::Str(m)) => {
                    lemma_get_insert_other(w1, "mode"@, Json::Str(filter_mode_name(lower_text(m))), ae);
                },
                _ => {},
            }
            if assoc_get(w2, "included_windows"@) is None {
                lemma_get_insert_other(w2, "included_windows"@, Json::Arr(Seq::empty()), ae);
            }
            let nw = Json::Obj(normalize_filter_entries(w));
            law_assoc_get_insert(s4, wf, nw);
            lemma_get_insert_other(s4, wf, nw, cm);
            lemma_get_insert_other(s4, wf, nw, pm);
            lemma_get_insert_other(s4, wf, nw, cp);
        },
        _ => {},
    }
    assert(assoc_get(s5, cm) == assoc_get(s4, cm));
    assert(assoc_get(s5, pm) == assoc_get(s4, pm));
    assert(assoc_get(s5, cp) == assoc_get(s4, cp));
    assert(assoc_get(s5, wf) matches Some(Json::Obj(w)) ==> assoc_get(w, "auto_exclude_preview"@)
        == Some(Json::Bool(true)));
    // Step 6 touches only the shortcuts.
    match assoc_get(s5, sc) {
        Some(Json::Obj(x)) => {
            let ns = Json::Obj(normalize_shortcut_entries(x));
            lemma_get_insert_other(s5, sc, ns, cm);
            lemma_get_insert_other(s5, sc, ns, pm);
            lemma_get_insert_other(s5, sc, ns, cp);
            lemma_get_insert_other(s5, sc, ns, wf);
        },
        _ => {},
    }
}

// ---------------------------------------------------------------------------
// Sanitizing twice
// ---------------------------------------------------------------------------
/// Setting a key to the value it already has changes nothing.
proof fn lemma_insert_same(s: Seq<(Seq<char>, Json)>, k: Seq<char>, v: Json)
    requires
        assoc_get(s, k) == Some(v),
    ensures
        assoc_insert(s, k, v) == s,
{
    lemma_key_index(s, k);
    let i = key_index(s, k)->Some_0;
    assert(s[i] == (k, v));
    assert(s.update(i, (k, v)) =~= s);
}

/// A shortcut token that the normalization keeps as it is.
pub open spec fn token_settled(t: Seq<char>) -> bool {
    &&& t.len() > 0
    &&& !t.contains('+')
    &&& trimmed(t) == t
    &&& rewrite_token(t) == t
}

proof fn lemma_equal_token_settled()
    ensures
        token_settled("Equal"@),
{
    reveal_strlit("Equal");
    reveal_strlit("plus");
    reveal_strlit("+");
    lemma_trimmed_unchanged("Equal"@);
    assert(!"Equal"@.contains('+')) by {
        assert forall|i: int| 0 <= i < "Equal"@.len() implies "Equal"@[i] != '+' by {}
    }
    assert("Equal"@.len() != "plus"@.len());
    assert("Equal"@.len() != "+"@.len());
}

proof fn lemma_tokens_settled(pieces: Seq<Seq<char>>)
    requires
        forall|i: int| 0 <= i < pieces.len() ==> !(#[trigger] pieces[i]).contains('+'),
    ensures
        forall|j: int| 0 <= j < tokens_of(pieces).len() ==> token_settled(#[trigger] tokens_of(pieces)[j]),
    decreases pieces.len(),
{
    if pieces.len() > 0 {
        let init = pieces.drop_last();
        assert forall|i: int| 0 <= i < init.len() implies !(#[trigger] init[i]).contains('+') by {
            assert(init[i] == pieces[i]);
        }
        lemma_tokens_settled(init);
        let last = pieces.last();
        assert(!last.contains('+')) by {
            assert(pieces[pieces.len() - 1] == last);
        }
        let t = trimmed(last);
        lemma_trimmed_idempotent(last);
        if t.len() > 0 {
            let tok = rewrite_token(t);
            if tok == t {
                assert(token_settled(t));
            } else {
                lemma_equal_token_settled();
            }
            let rest = tokens_of(init);
            assert forall|j: int| 0 <= j < rest.push(tok).len() implies token_settled(
                #[trigger] rest.push(tok)[j],
            ) by {
                if j < rest.len() {
                    assert(rest.push(tok)[j] == rest[j]);
                }
            }
        }
    }
}

proof fn lemma_tokens_kept(toks: Seq<Seq<char>>)
    requires
        forall|j: int| 0 <= j < toks.len() ==> token_settled(#[trigger] toks[j]),
    ensures
        tokens_of(toks) == toks,
    decreases toks.len(),
{
    if toks.len() > 0 {
        let init = toks.drop_last();
        assert forall|j: int| 0 <= j < init.len() implies token_settled(#[trigger] init[j]) by {
            assert(init[j] == toks[j]);
        }
        lemma_tokens_kept(init);
        assert(token_settled(toks[toks.len() - 1]));
        assert(init.push(toks.last()) =~= toks);
    }
}

/// A normalized shortcut normalizes to itself.
proof fn lemma_normalized_shortcut_settled(raw: Seq<char>)
    ensures
        normalized_shortcut(raw) matches Some(n) ==> normalized_shortcut(n) == Some(n),
{
    let pieces = split_spec(raw, '+');
    lemma_split_pieces_lack_sep(raw, '+');
    lemma_tokens_settled(pieces);
    let toks = shortcut_tokens(raw);
    if toks.len() > 0 {
        reveal_strlit("+");
        assert("+"@ =~= seq!['+']);
        assert forall|i: int| 0 <= i < toks.len() implies !(#[trigger] toks[i]).contains('+') by {
            assert(token_settled(toks[i]));
        }
        lemma_split_join(toks, '+');
        lemma_tokens_kept(toks);
    }
}

/// A shortcut value that its normalization keeps: not text, or text that normalizes to
/// nothing or to itself.
pub open spec fn shortcut_value_settled(v: Option<Json>) -> bool {
    v matches Some(Json::Str(raw)) ==> (normalized_shortcut(raw) is None || normalized_shortcut(raw)
        == Some(raw))
}

proof fn lemma_shortcut_key_step(sc: Seq<(Seq<char>, Json)>, key: Seq<char>, other: Seq<char>)
    ensures
        shortcut_value_settled(assoc_get(normalize_shortcut_key(sc, key), key)),
        shortcut_value_settled(assoc_get(sc, key)) ==> normalize_shortcut_key(sc, key) == sc,
        other != key ==> assoc_get(normalize_shortcut_key(sc, key), other) == assoc_get(sc, other),
{
    match assoc_get(sc, key) {
        Some(Json::Str(raw)) => {
            lemma_normalized_shortcut_settled(raw);
            match normalized_shortcut(raw) {
                Some(n) => {
                    law_assoc_get_insert(sc, key, Json::Str(n));
                    if other != key {
                        lemma_get_insert_other(sc, key, Json::Str(n), other);
                    }
                    if n == raw {
                        lemma_insert_same(sc, key, Json::Str(n));
                    }
                },
                None => {},
            }
        },
        _ => {},
    }
}

proof fn lemma_shortcut_keys_distinct()
    ensures
        "start_capture"@ != "stop_capture"@,
        "start_capture"@ != "zoom_in"@,
        "start_capture"@ != "zoom_out"@,
        "stop_capture"@ != "zoom_in"@,
        "stop_capture"@ != "zoom_out"@,
        "zoom_in"@ != "zoom_out"@,
{
    reveal_strlit("start_capture");
    reveal_strlit("stop_capture");
    reveal_strlit("zoom_in");
    reveal_strlit("zoom_out");
    assert("start_capture"@.len() != "stop_capture"@.len());
    assert("start_capture"@.len() != "zoom_in"@.len());
    assert("start_capture"@.len() != "zoom_out"@.len());
    assert("stop_capture"@.len() != "zoom_in"@.len());
    assert("stop_capture"@.len() != "zoom_out"@.len());
    assert("zoom_in"@.len() != "zoom_out"@.len());
}

/// Normalizing shortcuts that were normalized changes nothing.
proof fn lemma_shortcut_entries_settled(sc: Seq<(Seq<char>, Json)>)
    ensures
        normalize_shortcut_entries(normalize_shortcut_entries(sc)) == normalize_shortcut_entries(sc),
{
    lemma_shortcut_keys_distinct();
    let k1 = "start_capture"@;
    let k2 = "stop_capture"@;
    let k3 = "zoom_in"@;
    let k4 = "zoom_out"@;
    let a = normalize_shortcut_key(sc, k1);
    let b = normalize_shortcut_key(a, k2);
    let c = normalize_shortcut_key(b, k3);
    let d = normalize_shortcut_key(c, k4);
    lemma_shortcut_key_step(sc, k1, k2);
    lemma_shortcut_key_step(a, k2, k1);
    lemma_shortcut_key_step(b, k3, k1);
    lemma_shortcut_key_step(c, k4, k1);
    lemma_shortcut_key_step(b, k3, k2);
    lemma_shortcut_key_step(c, k4, k2);
    lemma_shortcut_key_step(c, k4, k3);
    assert(shortcut_value_settled(assoc_get(d, k1)));
    assert(shortcut_value_settled(assoc_get(d, k2)));
    assert(shortcut_value_settled(assoc_get(d, k3)));
    assert(shortcut_value_settled(assoc_get(d, k4)));
    lemma_shortcut_key_step(d, k1, k2);
    lemma_shortcut_key_step(d, k2, k1);
    lemma_shortcut_key_step(d, k3, k1);
    lemma_shortcut_key_step(d, k4, k1);
}

proof fn lemma_mode_names_settled()
    ensures
        is_ascii_text("none"@) && has_no_ascii_upper("none"@),
        is_ascii_text("exclude_list"@) && has_no_ascii_upper("exclude_list"@),
        is_ascii_text("include_only"@) && has_no_ascii_upper("include_only"@),
        "none"@ != "exclude"@ && "none"@ != "exclude_list"@ && "none"@ != "include"@ && "none"@
            != "include_only"@,
        "exclude_list"@ != "none"@,
        "include_only"@ != "none"@ && "include_only"@ != "exclude"@ && "include_only"@
            != "exclude_list"@ && "include_only"@ != "include"@,
{
    reveal_strlit("none");
    reveal_strlit("exclude");
    reveal_strlit("exclude_list");
    reveal_strlit("include");
    reveal_strlit("include_only");
    assert forall|i: int| 0 <= i < "none"@.len() implies (#[trigger] "none"@[i] as u32) < 128 && !('A'
        <= "none"@[i] && "none"@[i] <= 'Z') by {}
    assert forall|i: int| 0 <= i < "exclude_list"@.len() implies (#[trigger] "exclude_list"@[i] as u32)
        < 128 && !('A' <= "exclude_list"@[i] && "exclude_list"@[i] <= 'Z') by {}
    assert forall|i: int| 0 <= i < "include_only"@.len() implies (#[trigger] "include_only"@[i] as u32)
        < 128 && !('A' <= "include_only"@[i] && "include_only"@[i] <= 'Z') by {}
    assert("none"@.len() != "exclude"@.len());
    assert("none"@.len() != "exclude_list"@.len());
    assert("none"@.len() != "include"@.len());
    assert("none"@.len() != "include_only"@.len());
    assert("include_only"@.len() != "exclude"@.len());
    assert("include_only"@[1] != "exclude_list"@[1]);
    assert("include_only"@.len() != "include"@.len());
}

/// A filter mode given as ASCII text, once normalized, normalizes to itself.
proof fn lemma_mode_settled(m: Seq<char>)
    requires
        is_ascii_text(m),
    ensures
        filter_mode_name(lower_text(filter_mode_name(lower_text(m)))) == filter_mode_name(
            lower_text(m),
        ),
{
    lemma_lower_text_settles(m);
    lemma_mode_names_settled();
    let y = lower_text(m);
    let x = filter_mode_name(y);
    if x == y {
        lemma_lower_text_unchanged(y);
    } else if x == "none"@ {
        lemma_lower_text_unchanged("none"@);
    } else if x == "exclude_list"@ {
        lemma_lower_text_unchanged("exclude_list"@);
    } else {
        lemma_lower_text_unchanged("include_only"@);
    }
}

proof fn lemma_filter_keys_distinct()
    ensures
        "mode"@ != "auto_exclude_preview"@,
        "included_windows"@ != "auto_exclude_preview"@,
        "included_windows"@ != "mode"@,
{
    reveal_strlit("mode");
    reveal_strlit("auto_exclude_preview");
    reveal_strlit("included_windows");
    assert("mode"@.len() != "auto_exclude_preview"@.len());
    assert("included_windows"@.len() != "auto_exclude_preview"@.len());
    assert("included_windows"@.len() != "mode"@.len());
}

/// Normalizing a window filter that was normalized changes nothing, where its mode, if
/// text, is ASCII text.
proof fn lemma_filter_entries_settled(w: Seq<(Seq<char>, Json)>)
    requires
        assoc_get(w, "mode"@) matches Some(Json::Str(m)) ==> is_ascii_text(m),
    ensures
        normalize_filter_entries(normalize_filter_entries(w)) == normalize_filter_entries(w),
{
    lemma_filter_keys_distinct();
    let ae = "auto_exclude_preview"@;
    let md = "mode"@;
    let inc = "included_windows"@;
    let w1 = assoc_insert(w, ae, Json::Bool(true));
    law_assoc_get_insert(w, ae, Json::Bool(true));
    lemma_get_insert_other(w, ae, Json::Bool(true), md);
    let w2 = match assoc_get(w1, md) {
        Some(Json::Str(m)) => assoc_insert(w1, md, Json::Str(filter_mode_name(lower_text(m)))),
        _ => w1,
    };
    match assoc_get(w1, md) {
        Some(Json::Str(m)) => {
            let v = Json::Str(filter_mode_name(lower_text(m)));
            law_assoc_get_insert(w1, md, v);
            lemma_get_insert_other(w1, md, v, ae);
            lemma_mode_settled(m);
        },
        _ => {},
    }
    let w3 = normalize_filter_entries(w);
    if assoc_get(w2, inc) is None {
        let e = Json::Arr(Seq::empty());
        law_assoc_get_insert(w2, inc, e);
        lemma_get_insert_other(w2, inc, e, ae);
        lemma_get_insert_other(w2, inc, e, md);
    }
    assert(assoc_get(w3, ae) == Some(Json::Bool(true)));
    assert(assoc_get(w3, md) == assoc_get(w2, md));
    assert(assoc_get(w3, inc) is Some);
    lemma_insert_same(w3, ae, Json::Bool(true));
    match assoc_get(w3, md) {
        Some(Json::Str(m2)) => {
            lemma_insert_same(w3, md, Json::Str(m2));
        },
        _ => {},
    }
}

proof fn lemma_more_key_literals()
    ensures
        "shortcuts"@ != "border_color"@,
{
    reveal_strlit("shortcuts");
    reveal_strlit("border_color");
    assert("shortcuts"@.len() != "border_color"@.len());
}

/// What each step of sanitizing leaves of a key that it does not touch.
proof fn lemma_steps_keep_other(s: Seq<(Seq<char>, Json)>, p: Platform, k: Seq<char>)
    ensures
        k != "border_color"@ ==> assoc_get(migrate_border_color(s), k) == assoc_get(s, k),
        k != "capture_method"@ ==> assoc_get(drop_unsupported_capture_method(s, p), k) == assoc_get(
            s,
            k,
        ),
        k != "preview_mode"@ ==> assoc_get(drop_unsupported_preview_mode(s, p), k) == assoc_get(s, k),
        k != "capture_preview_window"@ ==> assoc_get(force_capture_preview_window(s, p), k)
            == assoc_get(s, k),
        k != "window_filter"@ ==> assoc_get(normalize_window_filter(s), k) == assoc_get(s, k),
        k != "shortcuts"@ ==> assoc_get(normalize_shortcuts(s), k) == assoc_get(s, k),
{
    let bc = "border_color"@;
    let cm = "capture_method"@;
    let pm = "preview_mode"@;
    let cp = "capture_preview_window"@;
    let wf = "window_filter"@;
    let sc = "shortcuts"@;
    if k != bc {
        match assoc_get(s, bc) {
            Some(Json::Num(JsonNumber::PosInt(n))) => {
                lemma_get_insert_other(s, bc, rgba_array_of(n), k);
            },
            _ => {},
        }
    }
    if k != cm {
        lemma_get_remove_other(s, cm, k);
    }
    if k != pm {
        lemma_get_remove_other(s, pm, k);
    }
    if k != cp {
        lemma_get_insert_other(s, cp, Json::Bool(true), k);
    }
    if k != wf {
        match assoc_get(s, wf) {
            Some(Json::Obj(w)) => {
                lemma_get_insert_other(s, wf, Json::Obj(normalize_filter_entries(w)), k);
            },
            _ => {},
        }
    }
    if k != sc {
        match assoc_get(s, sc) {
            Some(Json::Obj(x)) => {
                lemma_get_insert_other(s, sc, Json::Obj(normalize_shortcut_entries(x)), k);
            },
            _ => {},
        }
    }
}

/// Sanitizing a settings document a second time changes nothing: every step finds the
/// document as its first run left it. (For an object whose keys are distinct, as those of a
/// parsed document are, and whose window filter mode, where it is text, is ASCII text:
/// `str::to_lowercase` is not stated to settle after one run on other text.)
pub proof fn law_sanitize_idempotent(s: Seq<(Seq<char>, Json)>, p: Platform)
    requires
        keys_distinct(s),
        assoc_get(s, "window_filter"@) matches Some(Json::Obj(w)) ==> (assoc_get(w, "mode"@) matches Some(
            Json::Str(m),
        ) ==> is_ascii_text(m)),
    ensures
        sanitize_entries(sanitize_entries(s, p), p) == sanitize_entries(s, p),
{
    lemma_key_literals();
    lemma_more_key_literals();
    law_sanitized_settings_fit_platform(s, p);
    let bc = "border_color"@;
    let cm = "capture_method"@;
    let pm = "preview_mode"@;
    let cp = "capture_preview_window"@;
    let wf = "window_filter"@;
    let sc = "shortcuts"@;
    let s1 = migrate_border_color(s);
    let s2 = drop_unsupported_capture_method(s1, p);
    let s3 = drop_unsupported_preview_mode(s2, p);
    let s4 = force_capture_preview_window(s3, p);
    let s5 = normalize_window_filter(s4);
    let t = normalize_shortcuts(s5);
    // The border color, as step 1 left it.
    lemma_steps_keep_other(s1, p, bc);
    lemma_steps_keep_other(s2, p, bc);
    lemma_steps_keep_other(s3, p, bc);
    lemma_steps_keep_other(s4, p, bc);
    lemma_steps_keep_other(s5, p, bc);
    match assoc_get(s, bc) {
        Some(Json::Num(JsonNumber::PosInt(n))) => {
            if n <= 0xFFFF_FFFF {
                law_assoc_get_insert(s, bc, rgba_array_of(n));
            }
        },
        _ => {},
    }
    assert(migrate_border_color(t) == t);
    // The capture method, the preview mode and the preview capture are settled.
    assert(drop_unsupported_capture_method(t, p) == t);
    assert(drop_unsupported_preview_mode(t, p) == t);
    assert(force_capture_preview_window(t, p) == t);
    // The window filter, as step 5 left it.
    lemma_steps_keep_other(s, p, wf);
    lemma_steps_keep_other(s1, p, wf);
    lemma_steps_keep_other(s2, p, wf);
    lemma_steps_keep_other(s3, p, wf);
    lemma_steps_keep_other(s5, p, wf);
    match assoc_get(s4, wf) {
        Some(Json::Obj(w)) => {
            let nw = Json::Obj(normalize_filter_entries(w));
            law_assoc_get_insert(s4, wf, nw);
            lemma_filter_entries_settled(w);
            lemma_insert_same(t, wf, nw);
        },
        _ => {},
    }
    assert(normalize_window_filter(t) == t);
    // The shortcuts, as step 6 left them.
    match assoc_get(s5, sc) {
        Some(Json::Obj(x)) => {
            let ns = Json::Obj(normalize_shortcut_entries(x));
            law_assoc_get_insert(s5, sc, ns);
            lemma_shortcut_entries_settled(x);
            lemma_insert_same(t, sc, ns);
        },
        _ => {},
    }
    assert(normalize_shortcuts(t) == t);
}

proof fn lemma_method_names()
    ensures
        "Wgc"@ != "auto"@,
        "Wgc"@ != "CoreGraphics"@,
        "GdiCopy"@ != "auto"@,
        "GdiCopy"@ != "CoreGraphics"@,
        "CoreGraphics"@ != "auto"@,
        "CoreGraphics"@ != "Wgc"@,
        "CoreGraphics"@ != "GdiCopy"@,
{
    reveal_strlit("Wgc");
    reveal_strlit("GdiCopy");
    reveal_strlit("CoreGraphics");
    reveal_strlit("auto");
    assert("Wgc"@.len() != "auto"@.len());
    assert("Wgc"@.len() != "CoreGraphics"@.len());
    assert("GdiCopy"@.len() != "auto"@.len());
    assert("GdiCopy"@.len() != "CoreGraphics"@.len());
    assert("CoreGraphics"@.len() != "auto"@.len());
}

/// A sanitized settings document names only a capture method that the platform has: off
/// Windows neither of the Windows-only methods `Wgc` and `GdiCopy`, on Windows not
/// `CoreGraphics`, and nowhere `auto`. A method that the platform has is kept as it was
/// named. (For an object whose keys are distinct, as those of a parsed document are.)
pub proof fn law_sanitized_capture_method_is_available(s: Seq<(Seq<char>, Json)>, p: Platform)
    requires
        keys_distinct(s),
    ensures
        ({
            let named = assoc_get(sanitize_entries(s, p), "capture_method"@);
            &&& p != Platform::Windows ==> named != Some(Json::Str("Wgc"@)) && named != Some(
                Json::Str("GdiCopy"@),
            )
            &&& p == Platform::Windows ==> named != Some(Json::Str("CoreGraphics"@))
            &&& named != Some(Json::Str("auto"@))
            &&& (p == Platform::Windows && (assoc_get(s, "capture_method"@) == Some(
                Json::Str("Wgc"@),
            ) || assoc_get(s, "capture_method"@) == Some(Json::Str("GdiCopy"@)))) ==> named
                == assoc_get(s, "capture_method"@)
            &&& (p != Platform::Windows && assoc_get(s, "capture_method"@) == Some(
                Json::Str("CoreGraphics"@),
            )) ==> named == assoc_get(s, "capture_method"@)
        }),
{
    lemma_key_literals();
    lemma_more_key_literals();
    lemma_method_names();
    law_sanitized_settings_fit_platform(s, p);
    let cm = "capture_method"@;
    let s1 = migrate_border_color(s);
    let s2 = drop_unsupported_capture_method(s1, p);
    let s3 = drop_unsupported_preview_mode(s2, p);
    let s4 = force_capture_preview_window(s3, p);
    let s5 = normalize_window_filter(s4);
    lemma_steps_keep_other(s, p, cm);
    lemma_steps_keep_other(s2, p, cm);
    lemma_steps_keep_other(s3, p, cm);
    lemma_steps_keep_other(s4, p, cm);
    lemma_steps_keep_other(s5, p, cm);
}

} // verus!
