use vstd::prelude::*;

use crate::json::JsonValue;
use crate::remote::{is_json_text, is_success_status, parses_as_json, status_display, status_text};
use crate::order::{first_of_each_key, is_first_of_each_key, is_stable_order, lex_lt, stable_order_by_key};
use crate::profiles::{has_json_extension, is_json_file_name, strip_suffix_all, trim_end_matches};
use crate::text::{
    chars_of, ends_with, eq_ignore_ascii_case, eq_ignore_ascii_case_spec, has_suffix, lowercased,
    str_eq, string_from_range, string_of, to_lowercase,
};

verus! {

broadcast use vstd::string::group_string_axioms;

// ---------------------------------------------------------------------------
// Locale codes
// ---------------------------------------------------------------------------
/// A character a locale code may hold: an ASCII letter or digit, `-` or `_`.
pub open spec fn is_code_char(c: char) -> bool {
    ('a' <= c && c <= 'z') || ('A' <= c && c <= 'Z') || ('0' <= c && c <= '9') || c == '-' || c
        == '_'
}

/// A locale code: 1 to 16 characters, each a code character. (The limit counts bytes; as
/// every code character is ASCII, bytes and characters agree.)
pub open spec fn valid_locale_code(code: Seq<char>) -> bool {
    0 < code.len() <= 16 && forall|i: int| 0 <= i < code.len() ==> is_code_char(#[trigger] code[i])
}

fn code_char(c: char) -> (r: bool)
    ensures
        r == is_code_char(c),
{
    ('a' <= c && c <= 'z') || ('A' <= c && c <= 'Z') || ('0' <= c && c <= '9') || c == '-' || c
        == '_'
}

/// Whether `code` is a locale code (see `valid_locale_code`).
pub fn is_valid_locale_code(code: &str) -> (r: bool)
    ensures
        r == valid_locale_code(code@),
{
    let v = chars_of(code);
    if v.len() == 0 {
        return false;
    }
    let mut i: usize = 0;
    while i < v.len()
        invariant
            v@ == code@,
            i <= v@.len(),
            forall|j: int| 0 <= j < i ==> is_code_char(#[trigger] v@[j]),
        decreases v@.len() - i,
    {
        if !code_char(v[i]) {
            return false;
        }
        i = i + 1;
    }
    v.len() <= 16
}

/// The locale code of a file in the locales directory: its stem, where its extension is
/// `json` and the stem is a locale code.
pub open spec fn locale_code_of(name: Seq<char>) -> Option<Seq<char>> {
    if has_json_extension(name) && valid_locale_code(name.take(name.len() - 5)) {
        Some(name.take(name.len() - 5))
    } else {
        None
    }
}

/// A locale saved as `<code>.json` is listed again under its code.
pub proof fn law_locale_file_roundtrip(code: Seq<char>)
    requires
        valid_locale_code(code),
    ensures
        locale_code_of(code + ".json"@) == Some(code),
{
    reveal_strlit(".json");
    let name = code + ".json"@;
    assert(name.skip(name.len() - 5) =~= ".json"@);
    assert(name.take(name.len() - 5) =~= code);
}

pub open spec fn opt_locale_code(name: Option<Seq<char>>) -> Option<Seq<char>> {
    match name {
        Some(n) => locale_code_of(n),
        None => None,
    }
}

pub open spec fn opt_view(s: Option<&str>) -> Option<Seq<char>> {
    match s {
        Some(v) => Some(v@),
        None => None,
    }
}

/// The locale code of a file (see `locale_code_of`); `file_name` is None where the name is
/// not valid text.
pub fn locale_code_of_file_name(file_name: Option<&str>) -> (r: Option<String>)
    ensures
        match r {
            Some(c) => opt_locale_code(opt_view(file_name)) == Some(c@),
            None => opt_locale_code(opt_view(file_name)) is None,
        },
{
    match file_name {
        Some(name) => {
            if !is_json_file_name(name) {
                return None;
            }
            let v = chars_of(name);
            let stem = string_from_range(&v, 0, v.len() - 5);
            proof {
                assert(v@.subrange(0, v@.len() - 5) =~= name@.take(name@.len() - 5));
            }
            if is_valid_locale_code(stem.as_str()) {
                Some(stem)
            } else {
                None
            }
        },
        None => None,
    }
}

pub open spec fn string_views(v: Seq<String>) -> Seq<Seq<char>> {
    v.map_values(|s: String| s@)
}

/// `r` is `codes` sorted and without repeats.
pub open spec fn is_sorted_distinct_of(codes: Seq<Seq<char>>, r: Seq<Seq<char>>) -> bool {
    &&& forall|i: int, j: int| 0 <= i < j < r.len() ==> lex_lt(#[trigger] r[i], #[trigger] r[j])
    &&& forall|i: int| 0 <= i < r.len() ==> codes.contains(#[trigger] r[i])
    &&& forall|m: int| 0 <= m < codes.len() ==> r.contains(#[trigger] codes[m])
}

/// The locale codes found in the locales directory, sorted and without repeats.
/// `file_names` holds the names of its entries (None where a name is not valid text).
pub fn list_locale_codes(file_names: &Vec<Option<String>>) -> (r: Vec<String>)
    ensures
        is_sorted_distinct_of(file_codes(file_names@), string_views(r@)),
{
    let mut codes: Vec<String> = Vec::new();
    let mut i: usize = 0;
    while i < file_names.len()
        invariant
            i <= file_names@.len(),
            string_views(codes@) == file_codes(file_names@.take(i as int)),
        decreases file_names@.len() - i,
    {
        let found = match &file_names[i] {
            Some(n) => locale_code_of_file_name(Some(n.as_str())),
            None => locale_code_of_file_name(None),
        };
        proof {
            lemma_file_codes_push(file_names@.take(i as int), file_names@[i as int]);
            assert(file_names@.take(i + 1) =~= file_names@.take(i as int).push(file_names@[i as int]));
        }
        let ghost prev = codes@;
        match found {
            Some(c) => {
                codes.push(c);
                proof {
                    assert(string_views(codes@) =~= string_views(prev).push(codes@.last()@));
                }
            },
            None => {},
        }
        i = i + 1;
    }
    proof {
        assert(file_names@.take(file_names@.len() as int) =~= file_names@);
    }
    let order = first_of_each_key(&codes);
    let ghost ks = codes@.map_values(|k: String| k@);
    let mut r: Vec<String> = Vec::new();
    let mut j: usize = 0;
    while j < order.len()
        invariant
            j <= order@.len(),
            ks == codes@.map_values(|k: String| k@),
            is_first_of_each_key(ks, order@),
            r@.len() == j,
            forall|m: int| 0 <= m < j ==> (#[trigger] r@[m])@ == ks[order@[m] as int],
        decreases order@.len() - j,
    {
        r.push(string_of(codes[order[j]].as_str()));
        j = j + 1;
    }
    proof {
        let rs = string_views(r@);
        assert(ks == string_views(codes@));
        assert forall|a: int, b: int| 0 <= a < b < rs.len() implies lex_lt(#[trigger] rs[a], #[trigger] rs[b]) by {
            assert(rs[a] == ks[order@[a] as int]);
            assert(rs[b] == ks[order@[b] as int]);
        }
        assert forall|a: int| 0 <= a < rs.len() implies ks.contains(#[trigger] rs[a]) by {
            assert(rs[a] == ks[order@[a] as int]);
        }
        assert forall|m: int| 0 <= m < ks.len() implies rs.contains(#[trigger] ks[m]) by {
            assert(crate::order::key_listed(ks, order@, ks[m]));
            let p = choose|p: int| 0 <= p < order@.len() && #[trigger] ks[order@[p] as int] == ks[m];
            assert(rs[p] == ks[m]);
        }
        assert(is_sorted_distinct_of(ks, rs));
        assert(ks == file_codes(file_names@));
    }
    r
}

/// The locale codes of a directory's entries, in order, the entries without one left out.
pub open spec fn file_codes(names: Seq<Option<String>>) -> Seq<Seq<char>>
    decreases names.len(),
{
    if names.len() == 0 {
        Seq::empty()
    } else {
        let rest = file_codes(names.drop_last());
        match opt_locale_code(
            match names.last() {
                Some(n) => Some(n@),
                None => None,
            },
        ) {
            Some(c) => rest.push(c),
            None => rest,
        }
    }
}

proof fn lemma_file_codes_push(names: Seq<Option<String>>, n: Option<String>)
    ensures
        file_codes(names.push(n)) == (match opt_locale_code(
            match n {
                Some(s) => Some(s@),
                None => None,
            },
        ) {
            Some(c) => file_codes(names).push(c),
            None => file_codes(names),
        }),
{
    assert(names.push(n).drop_last() =~= names);
}

// ---------------------------------------------------------------------------
// Loading the locales
// ---------------------------------------------------------------------------
/// One locale: its code and its translations.
#[derive(Debug)]
pub struct LocaleEntry {
    pub code: String,
    pub data: JsonValue,
}

pub open spec fn entry_codes(v: Seq<LocaleEntry>) -> Seq<Seq<char>> {
    v.map_values(|e: LocaleEntry| e.code@)
}

/// `r` is `found` sorted by code, entries with the same code in the order found.
pub open spec fn is_sorted_by_code(found: Seq<LocaleEntry>, r: Seq<LocaleEntry>) -> bool {
    exists|perm: Seq<usize>|
        #![trigger is_stable_order(entry_codes(found), perm)]
        is_stable_order(entry_codes(found), perm) && r.len() == perm.len() && forall|j: int|
            0 <= j < r.len() ==> #[trigger] r[j] == found[perm[j] as int]
}

/// The locales that were read, sorted by code (see `is_sorted_by_code`).
pub fn load_locales(found: Vec<LocaleEntry>) -> (r: Vec<LocaleEntry>)
    ensures
        is_sorted_by_code(found@, r@),
{
    let ghost f0 = found@;
    let mut codes: Vec<String> = Vec::new();
    let mut slots: Vec<Option<LocaleEntry>> = Vec::new();
    let mut rest = found;
    let ghost mut i: int = 0;
    proof {
        assert(f0.skip(0) =~= f0);
    }
    while rest.len() > 0
        invariant
            0 <= i <= f0.len(),
            rest@ == f0.skip(i),
            codes@.len() == i,
            slots@.len() == i,
            forall|j: int| 0 <= j < i ==> (#[trigger] codes@[j])@ == f0[j].code@,
            forall|j: int| 0 <= j < i ==> #[trigger] slots@[j] == Some(f0[j]),
        decreases rest@.len(),
    {
        let item = rest.remove(0);
        proof {
            assert(item == f0[i]);
            assert(rest@ =~= f0.skip(i + 1));
        }
        codes.push(string_of(item.code.as_str()));
        slots.push(Some(item));
        proof {
            i = i + 1;
        }
    }
    let perm = stable_order_by_key(&codes);
    proof {
        assert(codes@.map_values(|k: String| k@) =~= entry_codes(f0));
    }
    let mut r: Vec<LocaleEntry> = Vec::new();
    let mut j: usize = 0;
    while j < perm.len()
        invariant
            j <= perm@.len(),
            is_stable_order(entry_codes(f0), perm@),
            slots@.len() == f0.len(),
            r@.len() == j,
            forall|m: int| 0 <= m < j ==> #[trigger] r@[m] == f0[perm@[m] as int],
            forall|m: int|
                j <= m < perm@.len() ==> #[trigger] slots@[perm@[m] as int] == Some(
                    f0[perm@[m] as int],
                ),
        decreases perm@.len() - j,
    {
        let k = perm[j];
        let mut slot: Option<LocaleEntry> = None;
        let ghost before = slots@;
        std::mem::swap(&mut slot, &mut slots[k]);
        proof {
            assert forall|m: int| j + 1 <= m < perm@.len() implies #[trigger] slots@[perm@[m] as int]
                == Some(f0[perm@[m] as int]) by {
                assert(perm@[j as int] != perm@[m]);
                assert(slots@[perm@[m] as int] == before[perm@[m] as int]);
            }
        }
        match slot {
            Some(item) => {
                r.push(item);
            },
            None => {},
        }
        j = j + 1;
    }
    r
}

// ---------------------------------------------------------------------------
// Downloading the locales
// ---------------------------------------------------------------------------
/// How many locales a download saved, and how many it skipped.
#[derive(Clone, Copy, PartialEq, Eq, Debug, Structural)]
pub struct LocaleDownloadResult {
    pub downloaded: usize,
    pub skipped: usize,
}

/// What became of one entry of the published locales.
#[derive(Clone, Copy, PartialEq, Eq, Debug, Structural)]
pub enum LocaleOutcome {
    /// Not a locale to download (not a JSON file, English, or not asked for).
    Ignored,
    /// A locale that could not be downloaded, checked or saved.
    Skipped,
    /// A locale downloaded and saved.
    Downloaded,
}

impl LocaleDownloadResult {
    /// Nothing downloaded or skipped yet.
    pub fn new() -> (r: LocaleDownloadResult)
        ensures
            r.downloaded == 0 && r.skipped == 0,
    {
        LocaleDownloadResult { downloaded: 0, skipped: 0 }
    }

    /// Counts one entry's outcome.
    pub fn record(&mut self, outcome: LocaleOutcome)
        requires
            old(self).downloaded < usize::MAX,
            old(self).skipped < usize::MAX,
        ensures
            final(self).downloaded == old(self).downloaded + (if outcome == LocaleOutcome::Downloaded {
                1int
            } else {
                0int
            }),
            final(self).skipped == old(self).skipped + (if outcome == LocaleOutcome::Skipped {
                1int
            } else {
                0int
            }),
    {
        match outcome {
            LocaleOutcome::Ignored => {},
            LocaleOutcome::Skipped => {
                self.skipped = self.skipped + 1;
            },
            LocaleOutcome::Downloaded => {
                self.downloaded = self.downloaded + 1;
            },
        }
    }
}

pub open spec fn lowered_views(v: Seq<String>) -> Seq<Seq<char>> {
    v.map_values(|s: String| lowercased(s@))
}

/// The locales a download asks for, lower-cased: none (all of them) where no list or an
/// empty one is given.
pub fn requested_locale_set(requested: Option<Vec<String>>) -> (r: Option<Vec<String>>)
    ensures
        match requested {
            Some(list) => if list@.len() == 0 {
                r is None
            } else {
                r matches Some(set) && string_views(set@) == lowered_views(list@)
            },
            None => r is None,
        },
{
    match requested {
        Some(list) => {
            if list.len() == 0 {
                return None;
            }
            let mut set: Vec<String> = Vec::new();
            let mut i: usize = 0;
            while i < list.len()
                invariant
                    i <= list@.len(),
                    string_views(set@) == lowered_views(list@.take(i as int)),
                decreases list@.len() - i,
            {
                set.push(to_lowercase(list[i].as_str()));
                proof {
                    assert(list@.take(i + 1) =~= list@.take(i as int).push(list@[i as int]));
                    assert(lowered_views(list@.take(i + 1)) =~= lowered_views(list@.take(i as int)).push(
                        lowercased(list@[i as int]@),
                    ));
                    assert(string_views(set@) =~= lowered_views(list@.take(i as int)).push(
                        lowercased(list@[i as int]@),
                    ));
                }
                i = i + 1;
            }
            proof {
                assert(list@.take(list@.len() as int) =~= list@);
            }
            Some(set)
        },
        None => None,
    }
}

/// What is done with one entry of the published locales' listing.
#[derive(Clone, Debug)]
pub enum LocaleEntryDecision {
    /// Pass it by without counting it.
    Ignore,
    /// Count it as skipped.
    Skip,
    /// Download the locale with this code from the entry's URL.
    Fetch(String),
}

/// What is done with an entry of the listing: only files whose name ends in `.json` are
/// locales, their code being the name without its trailing `.json`s; English, which ships
/// with the application, and codes not asked for are passed by; an entry whose code is not
/// a locale code, or that has no download URL, is skipped; the others are downloaded.
pub open spec fn locale_entry_decision(
    item_type: Seq<char>,
    name: Seq<char>,
    requested: Option<Seq<Seq<char>>>,
    has_download_url: bool,
) -> Option<Option<Seq<char>>> {
    let code = strip_suffix_all(name, ".json"@);
    if item_type != "file"@ || !has_suffix(name, ".json"@) || eq_ignore_ascii_case_spec(code, "en"@) {
        None
    } else if requested matches Some(set) && !set.contains(lowercased(code)) {
        None
    } else if !valid_locale_code(code) || !has_download_url {
        Some(None)
    } else {
        Some(Some(code))
    }
}

pub open spec fn opt_set_view(r: Option<Vec<String>>) -> Option<Seq<Seq<char>>> {
    match r {
        Some(v) => Some(string_views(v@)),
        None => None,
    }
}

fn contains_string(set: &Vec<String>, s: &str) -> (r: bool)
    ensures
        r == string_views(set@).contains(s@),
{
    let mut i: usize = 0;
    while i < set.len()
        invariant
            i <= set@.len(),
            forall|j: int| 0 <= j < i ==> (#[trigger] set@[j])@ != s@,
        decreases set@.len() - i,
    {
        if str_eq(set[i].as_str(), s) {
            proof {
                assert(string_views(set@)[i as int] == s@);
            }
            return true;
        }
        i = i + 1;
    }
    proof {
        if string_views(set@).contains(s@) {
            let k = choose|k: int| 0 <= k < string_views(set@).len() && string_views(set@)[k] == s@;
            assert(set@[k]@ == s@);
        }
    }
    false
}

/// What is done with one entry of the listing (see `locale_entry_decision`): `requested` is
/// the lower-cased set of `requested_locale_set`.
pub fn locale_download_decision(
    item_type: &str,
    name: &str,
    requested: &Option<Vec<String>>,
    has_download_url: bool,
) -> (r: LocaleEntryDecision)
    ensures
        match locale_entry_decision(item_type@, name@, opt_set_view(*requested), has_download_url) {
            None => r is Ignore,
            Some(None) => r is Skip,
            Some(Some(code)) => r matches LocaleEntryDecision::Fetch(c) && c@ == code,
        },
{
    if !str_eq(item_type, "file") {
        return LocaleEntryDecision::Ignore;
    }
    if !ends_with(name, ".json") {
        return LocaleEntryDecision::Ignore;
    }
    let code = trim_end_matches(name, ".json");
    if eq_ignore_ascii_case(code.as_str(), "en") {
        return LocaleEntryDecision::Ignore;
    }
    match requested {
        Some(set) => {
            let lowered = to_lowercase(code.as_str());
            if !contains_string(set, lowered.as_str()) {
                return LocaleEntryDecision::Ignore;
            }
        },
        None => {},
    }
    if !is_valid_locale_code(code.as_str()) {
        return LocaleEntryDecision::Skip;
    }
    if !has_download_url {
        return LocaleEntryDecision::Skip;
    }
    LocaleEntryDecision::Fetch(code)
}

/// One entry of the published locales' listing, as far as a download reads it: its type,
/// its file name, and whether it has a download URL.
#[derive(Clone, Debug)]
pub struct LocaleListingEntry {
    pub item_type: String,
    pub name: String,
    pub has_download_url: bool,
}

/// What becomes of an entry of the listing: passed by, skipped, or, where it is fetched,
/// downloaded where `saved` (its locale was fetched, is JSON and was written) and skipped
/// otherwise.
pub open spec fn entry_outcome(
    entry: LocaleListingEntry,
    requested: Option<Seq<Seq<char>>>,
    saved: bool,
) -> LocaleOutcome {
    match locale_entry_decision(entry.item_type@, entry.name@, requested, entry.has_download_url) {
        None => LocaleOutcome::Ignored,
        Some(None) => LocaleOutcome::Skipped,
        Some(Some(_)) => if saved {
            LocaleOutcome::Downloaded
        } else {
            LocaleOutcome::Skipped
        },
    }
}

/// How many of the first `n` entries of the listing end with `outcome`.
pub open spec fn count_outcomes(
    entries: Seq<LocaleListingEntry>,
    requested: Option<Seq<Seq<char>>>,
    saved: Seq<bool>,
    n: int,
    outcome: LocaleOutcome,
) -> nat
    decreases n,
{
    if n <= 0 {
        0
    } else {
        count_outcomes(entries, requested, saved, n - 1, outcome) + if entry_outcome(
            entries[n - 1],
            requested,
            saved[n - 1],
        ) == outcome {
            1nat
        } else {
            0nat
        }
    }
}

/// How many of the first `n` entries of the listing are locales to download: entries that
/// are not passed by (see `locale_entry_decision`).
pub open spec fn count_eligible(
    entries: Seq<LocaleListingEntry>,
    requested: Option<Seq<Seq<char>>>,
    n: int,
) -> nat
    decreases n,
{
    if n <= 0 {
        0
    } else {
        count_eligible(entries, requested, n - 1) + if locale_entry_decision(
            entries[n - 1].item_type@,
            entries[n - 1].name@,
            requested,
            entries[n - 1].has_download_url,
        ) is Some {
            1nat
        } else {
            0nat
        }
    }
}

/// The totals of a download of the whole listing: `requested` is the lower-cased set of
/// `requested_locale_set`, and `saved[i]` tells whether the locale of entry `i`, where it
/// was fetched, was downloaded, found to be JSON and saved. Every locale to download is
/// counted once, as downloaded or as skipped.
pub fn locale_download_totals(
    entries: &Vec<LocaleListingEntry>,
    requested: &Option<Vec<String>>,
    saved: &Vec<bool>,
) -> (r: LocaleDownloadResult)
    requires
        entries@.len() == saved@.len(),
    ensures
        r.downloaded == count_outcomes(
            entries@,
            opt_set_view(*requested),
            saved@,
            entries@.len() as int,
            LocaleOutcome::Downloaded,
        ),
        r.skipped == count_outcomes(
            entries@,
            opt_set_view(*requested),
            saved@,
            entries@.len() as int,
            LocaleOutcome::Skipped,
        ),
        r.downloaded + r.skipped == count_eligible(
            entries@,
            opt_set_view(*requested),
            entries@.len() as int,
        ),
{
    let ghost req = opt_set_view(*requested);
    let mut result = LocaleDownloadResult::new();
    let mut i: usize = 0;
    while i < entries.len()
        invariant
            i <= entries@.len(),
            entries@.len() == saved@.len(),
            req == opt_set_view(*requested),
            result.downloaded == count_outcomes(
                entries@,
                req,
                saved@,
                i as int,
                LocaleOutcome::Downloaded,
            ),
            result.skipped == count_outcomes(entries@, req, saved@, i as int, LocaleOutcome::Skipped),
            result.downloaded + result.skipped == count_eligible(entries@, req, i as int),
            result.downloaded + result.skipped <= i,
        decreases entries@.len() - i,
    {
        let entry = &entries[i];
        let decision = locale_download_decision(
            entry.item_type.as_str(),
            entry.name.as_str(),
            requested,
            entry.has_download_url,
        );
        let outcome = match decision {
            LocaleEntryDecision::Ignore => LocaleOutcome::Ignored,
            LocaleEntryDecision::Skip => LocaleOutcome::Skipped,
            LocaleEntryDecision::Fetch(_) => if saved[i] {
                LocaleOutcome::Downloaded
            } else {
                LocaleOutcome::Skipped
            },
        };
        assert(outcome == entry_outcome(entries@[i as int], req, saved@[i as int]));
        result.record(outcome);
        i = i + 1;
    }
    result
}

// ---------------------------------------------------------------------------
// Checking what was downloaded
// ---------------------------------------------------------------------------
/// The file a downloaded locale is saved to, `<code>.json`, with its content: nothing where
/// the content could not be fetched or is not JSON.
pub fn locale_file_to_save(code: &str, content: Option<String>) -> (r: Option<(String, String)>)
    ensures
        match content {
            Some(c) => if is_json_text(c@) {
                r matches Some(saved) && saved.0@ == code@ + ".json"@ && saved.1 == c
            } else {
                r is None
            },
            None => r is None,
        },
{
    match content {
        Some(c) => {
            if !parses_as_json(c.as_str()) {
                return None;
            }
            let mut file_name = string_of(code);
            file_name.append(".json");
            Some((file_name, c))
        },
        None => None,
    }
}

/// The error a download of the locales' listing ends with, by the response's status code:
/// none on success, `No language files found.` for 404, else a message with the status.
pub open spec fn manifest_error_of(code: u16) -> Option<Seq<char>> {
    if code == 404 {
        Some("No language files found."@)
    } else if !is_success_status(code) {
        Some("Locales manifest download failed (status "@ + status_text(code) + ")"@)
    } else {
        None
    }
}

/// The error a download of the locales' listing ends with (see `manifest_error_of`).
pub fn locales_manifest_error(status: u16) -> (r: Option<String>)
    requires
        100 <= status <= 999,
    ensures
        match r {
            Some(e) => manifest_error_of(status) == Some(e@),
            None => manifest_error_of(status) is None,
        },
{
    if status == 404 {
        return Some(string_of("No language files found."));
    }
    if 200 <= status && status <= 299 {
        return None;
    }
    let mut e = string_of("Locales manifest download failed (status ");
    let shown = status_display(status);
    e.append(shown.as_str());
    e.append(")");
    Some(e)
}

/// Whether `c` is an ASCII letter, an ASCII digit, `-` or `_`.
pub open spec fn is_ascii_word_char(c: char) -> bool {
    ('0' <= c && c <= '9') || ('a' <= c && c <= 'z') || ('A' <= c && c <= 'Z') || c == '-' || c
        == '_'
}

/// The locale codes are exactly the strings of one to sixteen ASCII letters, ASCII digits,
/// `-` and `_` (such as `pt-BR`, `zh_Hans` or `es-419`); the file `<code>.json` of each is
/// listed under its code.
pub proof fn law_locale_code_characters(code: Seq<char>)
    ensures
        valid_locale_code(code) <==> (0 < code.len() <= 16 && forall|i: int|
            0 <= i < code.len() ==> is_ascii_word_char(#[trigger] code[i])),
        valid_locale_code(code) ==> locale_code_of(code + ".json"@) == Some(code),
{
    if valid_locale_code(code) {
        law_locale_file_roundtrip(code);
    }
}

/// A code does not end in `.json`: `.` is not a code character.
proof fn lemma_code_lacks_json_suffix(code: Seq<char>)
    requires
        valid_locale_code(code),
    ensures
        !has_suffix(code, ".json"@),
{
    reveal_strlit(".json");
    if has_suffix(code, ".json"@) {
        let k = code.len() - 5;
        assert(code.skip(k)[0] == '.');
        assert(code[k] == '.');
        assert(!is_code_char(code[k]));
    }
}

/// A file entry of the listing named `<code>.json` is passed by as English exactly when the
/// code is `en`, case aside (so `en-GB` is not); any other code that was asked for (or when
/// all were) is fetched under that code where the entry has a download URL, and skipped
/// where it has none.
pub proof fn law_only_english_is_passed_by(
    code: Seq<char>,
    requested: Option<Seq<Seq<char>>>,
    has_download_url: bool,
)
    requires
        valid_locale_code(code),
        requested matches Some(set) ==> set.contains(lowercased(code)),
    ensures
        eq_ignore_ascii_case_spec(code, "en"@) ==> locale_entry_decision(
            "file"@,
            code + ".json"@,
            requested,
            has_download_url,
        ) is None,
        !eq_ignore_ascii_case_spec(code, "en"@) ==> locale_entry_decision(
            "file"@,
            code + ".json"@,
            requested,
            has_download_url,
        ) == (if has_download_url {
            Some(Some(code))
        } else {
            Some(None)
        }),
{
    reveal_strlit(".json");
    let name = code + ".json"@;
    assert(name.skip(name.len() - 5) =~= ".json"@);
    assert(name.take(name.len() - 5) =~= code);
    assert(has_suffix(name, ".json"@));
    lemma_code_lacks_json_suffix(code);
    assert(strip_suffix_all(code, ".json"@) == code);
    assert(strip_suffix_all(name, ".json"@) == code);
}

} // verus!
