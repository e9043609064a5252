use vstd::prelude::*;

use crate::json::{Json, JsonValue};
use crate::remote::{
    is_success_status, is_success_status_code, json_error_message, json_error_of, status_display,
    status_text,
};
use crate::order::{first_of_each_key, is_first_of_each_key, lex_lt};
use crate::platform::{get_os_profile_subdir, os_profile_subdir, Platform};
use crate::text::{
    chars_of, ends_with, has_prefix, has_suffix, matches_at, starts_with, str_eq, string_from_range,
    string_of,
};

verus! {

broadcast use vstd::string::group_string_axioms;

/// A capture profile found in the profiles directory.
#[derive(Debug)]
pub struct CaptureProfileInfo {
    /// Profile id (derived from the file name), e.g. "discord" for profile_discord.json
    pub id: String,
    /// File name, e.g. "profile_discord.json"
    pub file_name: String,
    /// Display name from the profile document
    pub name: Option<String>,
}

/// What the frontend needs to know of a profile before capture starts.
#[derive(Debug, PartialEq, Eq, Structural)]
pub struct CaptureProfileHints {
    /// If present, the preview window is hidden from the taskbar/Alt-Tab after start.
    pub hide_taskbar_after_ms: Option<u32>,
}

/// One profile's entry in the profiles' version manifest.
#[derive(Debug)]
pub struct ProfileVersionInfo {
    pub version: String,
    pub file: String,
    pub last_updated: String,
    pub description: String,
}

/// The profiles' version manifest: per platform, per profile id, the profile's entry.
#[derive(Debug)]
pub struct ProfileVersionData {
    pub version: String,
    pub last_updated: String,
    pub profiles: Vec<(String, Vec<(String, ProfileVersionInfo)>)>,
}

/// What the frontend shows of one profile.
#[derive(Debug)]
pub struct ProfileDetails {
    pub id: String,
    pub name: String,
    pub description: String,
    pub version: String,
    pub file_name: String,
    pub settings: JsonValue,
}

/// Where the manifest of the published profiles is downloaded from.
pub const PROFILE_VERSION_URL: &'static str =
    "https://raw.githubusercontent.com/salihcantekin/RustFrame/master/resources/profiles/version.json";

// ---------------------------------------------------------------------------
// Profile ids of file names
// ---------------------------------------------------------------------------
/// `s` with every leading repetition of `p` removed (as `str::trim_start_matches`).
pub open spec fn strip_prefix_all(s: Seq<char>, p: Seq<char>) -> Seq<char>
    decreases s.len(),
{
    if p.len() > 0 && has_prefix(s, p) {
        strip_prefix_all(s.skip(p.len() as int), p)
    } else {
        s
    }
}

/// `s` with every trailing repetition of `p` removed (as `str::trim_end_matches`).
pub open spec fn strip_suffix_all(s: Seq<char>, p: Seq<char>) -> Seq<char>
    decreases s.len(),
{
    if p.len() > 0 && has_suffix(s, p) {
        strip_suffix_all(s.take(s.len() - p.len()), p)
    } else {
        s
    }
}

/// Removes every leading repetition of `p` from `s`.
pub fn trim_start_matches(s: &str, p: &str) -> (r: String)
    ensures
        r@ == strip_prefix_all(s@, p@),
{
    let vs = chars_of(s);
    let vp = chars_of(p);
    if vp.len() == 0 {
        return string_of(s);
    }
    let vlen = vs.len();
    let mut start: usize = 0;
    proof {
        assert(s@.skip(0) =~= s@);
    }
    while matches_at(&vs, start, &vp)
        invariant
            vlen == vs@.len(),
            vs@ == s@,
            vp@ == p@,
            vp@.len() > 0,
            start <= vs@.len(),
            strip_prefix_all(s@, p@) == strip_prefix_all(s@.skip(start as int), p@),
        decreases vs@.len() - start,
    {
        proof {
            let t = s@.skip(start as int);
            assert(t.take(p@.len() as int) =~= vs@.subrange(start as int, start + p@.len()));
            assert(t.skip(p@.len() as int) =~= s@.skip(start + p@.len()));
        }
        start = start + vp.len();
    }
    proof {
        let t = s@.skip(start as int);
        if has_prefix(t, p@) {
            assert(t.take(p@.len() as int) =~= vs@.subrange(start as int, start + p@.len()));
        }
        assert(vs@.subrange(start as int, vs@.len() as int) =~= t);
    }
    string_from_range(&vs, start, vs.len())
}

/// Removes every trailing repetition of `p` from `s`.
pub fn trim_end_matches(s: &str, p: &str) -> (r: String)
    ensures
        r@ == strip_suffix_all(s@, p@),
{
    let vs = chars_of(s);
    let vp = chars_of(p);
    if vp.len() == 0 {
        return string_of(s);
    }
    let mut end: usize = vs.len();
    proof {
        assert(s@.take(s@.len() as int) =~= s@);
    }
    while end >= vp.len() && matches_at(&vs, end - vp.len(), &vp)
        invariant
            vs@ == s@,
            vp@ == p@,
            vp@.len() > 0,
            end <= vs@.len(),
            strip_suffix_all(s@, p@) == strip_suffix_all(s@.take(end as int), p@),
        decreases end,
    {
        proof {
            let t = s@.take(end as int);
            assert(t.skip(t.len() - p@.len()) =~= vs@.subrange(end - p@.len(), end as int));
            assert(t.take(t.len() - p@.len()) =~= s@.take(end - p@.len()));
        }
        end = end - vp.len();
    }
    proof {
        let t = s@.take(end as int);
        if has_suffix(t, p@) {
            assert(t.skip(t.len() - p@.len()) =~= vs@.subrange(end - p@.len(), end as int));
        }
        assert(vs@.subrange(0, end as int) =~= t);
    }
    string_from_range(&vs, 0, end)
}

/// Whether a file name has the extension `json` (as `Path::extension` sees it: a name
/// such as `.json` has none).
pub open spec fn has_json_extension(name: Seq<char>) -> bool {
    has_suffix(name, ".json"@) && name.len() > 5
}

/// Whether a file name has the extension `json`.
pub fn is_json_file_name(name: &str) -> (r: bool)
    ensures
        r == has_json_extension(name@),
{
    ends_with(name, ".json") && chars_of(name).len() > 5
}

/// The profile id that a file name gives: `profile_<id>.json` (the old form) or
/// `<id>.json`, every repetition of the prefix and suffix removed.
pub open spec fn profile_id_of(name: Seq<char>) -> Seq<char> {
    if has_prefix(name, "profile_"@) {
        strip_suffix_all(strip_prefix_all(name, "profile_"@), ".json"@)
    } else {
        strip_suffix_all(name, ".json"@)
    }
}

/// The profile id of a directory entry, where it is a profile: a file (not a directory)
/// whose name is valid text with the extension `json`, that is not `version.json`, and
/// whose id is not empty.
pub open spec fn profile_candidate_id(name: Option<Seq<char>>, is_dir: bool) -> Option<Seq<char>> {
    match name {
        Some(n) => if !is_dir && has_json_extension(n) && n != "version.json"@ && profile_id_of(n).len()
            > 0 {
            Some(profile_id_of(n))
        } else {
            None
        },
        None => None,
    }
}

pub open spec fn opt_view(s: Option<&str>) -> Option<Seq<char>> {
    match s {
        Some(n) => Some(n@),
        None => None,
    }
}

/// The profile id of a directory entry (see `profile_candidate_id`). `file_name` is None
/// where the entry's name is not valid text.
pub fn profile_candidate(file_name: Option<&str>, is_dir: bool) -> (r: Option<String>)
    ensures
        match r {
            Some(id) => profile_candidate_id(opt_view(file_name), is_dir) == Some(id@),
            None => profile_candidate_id(opt_view(file_name), is_dir) is None,
        },
{
    if is_dir {
        return None;
    }
    match file_name {
        Some(name) => {
            if !is_json_file_name(name) || str_eq(name, "version.json") {
                return None;
            }
            let id = if starts_with(name, "profile_") {
                let stripped = trim_start_matches(name, "profile_");
                trim_end_matches(stripped.as_str(), ".json")
            } else {
                trim_end_matches(name, ".json")
            };
            if chars_of(id.as_str()).len() == 0 {
                None
            } else {
                Some(id)
            }
        },
        None => None,
    }
}

/// The entry of a profile whose document was read: None where the document could not be
/// read or is not an object; its display name is the document's `name` where that is text.
pub fn profile_info_from_document(id: String, file_name: String, document: Option<JsonValue>) -> (r:
    Option<CaptureProfileInfo>)
    ensures
        match document {
            Some(d) => match r {
                Some(info) => {
                    &&& d@ is Obj
                    &&& info.id == id
                    &&& info.file_name == file_name
                    &&& match info.name {
                        Some(n) => d@.get("name"@) == Some(Json::Str(n@)),
                        None => !(d@.get("name"@) matches Some(Json::Str(_))),
                    }
                },
                None => !(d@ is Obj),
            },
            None => r is None,
        },
{
    match document {
        Some(d) => {
            if !d.is_object() {
                return None;
            }
            let name = match d.get("name") {
                Some(v) => match v.as_str() {
                    Some(n) => Some(string_of(n)),
                    None => None,
                },
                None => None,
            };
            Some(CaptureProfileInfo { id, file_name, name })
        },
        None => None,
    }
}

/// The ids of a list of profile entries.
pub open spec fn ids_of(found: Seq<CaptureProfileInfo>) -> Seq<Seq<char>> {
    found.map_values(|p: CaptureProfileInfo| p.id@)
}

/// The profiles that a scan lists: one per distinct id, by increasing id, each the first
/// entry found with that id (the platform's directory is scanned before the root).
pub open spec fn is_profile_scan(found: Seq<CaptureProfileInfo>, r: Seq<CaptureProfileInfo>) -> bool {
    exists|order: Seq<usize>|
        #![trigger is_first_of_each_key(ids_of(found), order)]
        is_first_of_each_key(ids_of(found), order) && r.len() == order.len() && forall|j: int|
            0 <= j < r.len() ==> #[trigger] r[j] == found[order[j] as int]
}

/// The profiles of a scan (see `is_profile_scan`): `found` holds the entries of the
/// platform's directory, then those of the root, in the order they were listed.
pub fn scan_capture_profiles(found: Vec<CaptureProfileInfo>) -> (r: Vec<CaptureProfileInfo>)
    ensures
        is_profile_scan(found@, r@),
{
    let ghost f0 = found@;
    let mut ids: Vec<String> = Vec::new();
    let mut slots: Vec<Option<CaptureProfileInfo>> = Vec::new();
    let mut rest = found;
    let ghost mut i: int = 0;
    proof {
        assert(f0.skip(0) =~= f0);
    }
    while rest.len() > 0
        invariant
            0 <= i <= f0.len(),
            rest@ == f0.skip(i),
            ids@.len() == i,
            slots@.len() == i,
            forall|j: int| 0 <= j < i ==> #[trigger] ids@[j]@ == f0[j].id@,
            forall|j: int| 0 <= j < i ==> #[trigger] slots@[j] == Some(f0[j]),
        decreases rest@.len(),
    {
        let item = rest.remove(0);
        proof {
            assert(item == f0[i]);
            assert(rest@ =~= f0.skip(i + 1));
        }
        ids.push(string_of(item.id.as_str()));
        slots.push(Some(item));
        proof {
            i = i + 1;
        }
    }
    let order = first_of_each_key(&ids);
    proof {
        assert(ids@.map_values(|k: String| k@) =~= ids_of(f0));
    }
    let mut r: Vec<CaptureProfileInfo> = Vec::new();
    let mut j: usize = 0;
    while j < order.len()
        invariant
            j <= order@.len(),
            is_first_of_each_key(ids_of(f0), order@),
            slots@.len() == f0.len(),
            r@.len() == j,
            forall|m: int| 0 <= m < j ==> #[trigger] r@[m] == f0[order@[m] as int],
            forall|m: int|
                j <= m < order@.len() ==> #[trigger] slots@[order@[m] as int] == Some(
                    f0[order@[m] as int],
                ),
        decreases order@.len() - j,
    {
        let k = order[j];
        let mut slot: Option<CaptureProfileInfo> = None;
        let ghost before = slots@;
        std::mem::swap(&mut slot, &mut slots[k]);
        proof {
            assert forall|m: int| j + 1 <= m < order@.len() implies #[trigger] slots@[order@[m] as int]
                == Some(f0[order@[m] as int]) by {
                assert(lex_lt(ids_of(f0)[order@[j as int] as int], ids_of(f0)[order@[m] as int]));
                if order@[m] == order@[j as int] {
                    crate::order::lemma_lex_irreflexive(ids_of(f0)[order@[j as int] as int]);
                }
                assert(slots@[order@[m] as int] == before[order@[m] as int]);
            }
        }
        match slot {
            Some(item) => {
                r.push(item);
            },
            None => {},
        }
        j = j + 1;
    }
    proof {
        assert(is_first_of_each_key(ids_of(f0), order@));
    }
    r
}

/// A profile saved as `<id>.json` is found again under its id: for an id that is not
/// empty, does not start with `profile_`, does not end in `.json`, and is not `version`,
/// the directory entry `<id>.json` is a profile with that id.
pub proof fn law_profile_file_name_roundtrip(id: Seq<char>)
    requires
        id.len() > 0,
        !has_prefix(id, "profile_"@),
        !has_suffix(id, ".json"@),
        id != "version"@,
    ensures
        profile_candidate_id(Some(id + ".json"@), false) == Some(id),
{
    reveal_strlit(".json");
    reveal_strlit("profile_");
    reveal_strlit("version.json");
    reveal_strlit("version");
    let name = id + ".json"@;
    assert(name.skip(name.len() - 5) =~= ".json"@);
    assert(has_json_extension(name));
    if name == "version.json"@ {
        assert(name.take(name.len() - 5) =~= id);
        assert("version.json"@.take(7) =~= "version"@);
    }
    if has_prefix(name, "profile_"@) {
        if id.len() >= 8 {
            assert(id.take(8) =~= name.take(8));
        } else {
            assert(name[id.len() as int] == '.');
            assert("profile_"@[id.len() as int] != '.');
        }
    }
    assert(name.take(name.len() - 5) =~= id);
    assert(strip_suffix_all(id, ".json"@) == id);
}

// ---------------------------------------------------------------------------
// Reading, downloading and showing one profile
// ---------------------------------------------------------------------------
/// The file name of a profile in the current form: `<id>.json`.
pub fn profile_file_name(profile_id: &str) -> (r: String)
    ensures
        r@ == profile_id@ + ".json"@,
{
    let mut r = string_of(profile_id);
    r.append(".json");
    r
}

/// Where a profile's overrides may be, in the order they are tried, as paths below the
/// profiles directory: `<os>/<id>.json`, then `profile_<id>.json`, then `<id>.json`.
pub fn profile_override_candidates(platform: Platform, profile_id: &str) -> (r: Vec<Vec<String>>)
    ensures
        r@.len() == 3,
        r@[0]@.len() == 2,
        r@[0]@[0]@ == os_profile_subdir(platform),
        r@[0]@[1]@ == profile_id@ + ".json"@,
        r@[1]@.len() == 1,
        r@[1]@[0]@ == "profile_"@ + profile_id@ + ".json"@,
        r@[2]@.len() == 1,
        r@[2]@[0]@ == profile_id@ + ".json"@,
{
    let os = string_of(get_os_profile_subdir(platform));
    let first = vec![os, profile_file_name(profile_id)];
    let mut legacy = string_of("profile_");
    legacy.append(profile_id);
    legacy.append(".json");
    let second = vec![legacy];
    let third = vec![profile_file_name(profile_id)];
    vec![first, second, third]
}

/// The overrides of a profile: the first candidate (see `profile_override_candidates`)
/// that could be read and holds an object. `documents` holds, for each candidate in
/// order, its document, or None where it is missing or could not be read or parsed.
pub fn select_profile_overrides(documents: Vec<Option<JsonValue>>) -> (r: Option<JsonValue>)
    ensures
        match r {
            Some(v) => exists|i: int|
                0 <= i < documents@.len() && #[trigger] documents@[i] == Some(v) && v@ is Obj
                    && forall|j: int|
                    0 <= j < i ==> !(#[trigger] documents@[j] matches Some(d) && d@ is Obj),
            None => forall|j: int|
                0 <= j < documents@.len() ==> !(#[trigger] documents@[j] matches Some(d) && d@ is Obj),
        },
{
    let ghost d0 = documents@;
    let mut rest = documents;
    let ghost mut i: int = 0;
    proof {
        assert(d0.skip(0) =~= d0);
    }
    while rest.len() > 0
        invariant
            0 <= i <= d0.len(),
            d0 == documents@,
            rest@ == d0.skip(i),
            forall|j: int| 0 <= j < i ==> !(#[trigger] d0[j] matches Some(d) && d@ is Obj),
        decreases rest@.len(),
    {
        let doc = rest.remove(0);
        proof {
            assert(doc == d0[i]);
            assert(rest@ =~= d0.skip(i + 1));
        }
        match doc {
            Some(d) => {
                if d.is_object() {
                    proof {
                        assert(d0[i] == Some(d));
                    }
                    return Some(d);
                }
            },
            None => {},
        }
        proof {
            i = i + 1;
        }
    }
    None
}

/// The hints of a profile's overrides: how long after start the preview window is
/// hidden from the taskbar, where the overrides set that to a number that fits in `u32`.
pub fn capture_profile_hints(overrides: Option<&JsonValue>) -> (r: CaptureProfileHints)
    ensures
        r.hide_taskbar_after_ms == (match overrides {
            Some(o) => match o@.get("winapi_destination_hide_taskbar_after_ms"@) {
                Some(v) => match v.as_u64() {
                    Some(n) => if n <= u32::MAX {
                        Some(n as u32)
                    } else {
                        None
                    },
                    None => None,
                },
                None => None,
            },
            None => None,
        }),
{
    let ms = match overrides {
        Some(o) => match o.get("winapi_destination_hide_taskbar_after_ms") {
            Some(v) => match v.as_u64() {
                Some(n) => if n <= 0xFFFF_FFFF {
                    Some(n as u32)
                } else {
                    None
                },
                None => None,
            },
            None => None,
        },
        None => None,
    };
    CaptureProfileHints { hide_taskbar_after_ms: ms }
}

/// What is shown of a profile whose document is `settings`: its display name (the
/// document's `name`, else the id), its description (or nothing), version `1.0.0`, and its
/// file name `<id>.json`.
pub fn profile_details(profile_id: String, settings: JsonValue) -> (r: ProfileDetails)
    ensures
        r.id == profile_id,
        r.name@ == (match settings@.get("name"@) {
            Some(Json::Str(n)) => n,
            _ => profile_id@,
        }),
        r.description@ == (match settings@.get("description"@) {
            Some(Json::Str(d)) => d,
            _ => Seq::empty(),
        }),
        r.version@ == "1.0.0"@,
        r.file_name@ == profile_id@ + ".json"@,
        r.settings == settings,
{
    let name = match settings.get("name") {
        Some(v) => match v.as_str() {
            Some(n) => string_of(n),
            None => string_of(profile_id.as_str()),
        },
        None => string_of(profile_id.as_str()),
    };
    let description = match settings.get("description") {
        Some(v) => match v.as_str() {
            Some(d) => string_of(d),
            None => String::new(),
        },
        None => String::new(),
    };
    let file_name = profile_file_name(profile_id.as_str());
    ProfileDetails {
        id: profile_id,
        name,
        description,
        version: string_of("1.0.0"),
        file_name,
        settings,
    }
}

/// The URL a published profile file is downloaded from.
pub fn get_profile_download_url(platform: &str, filename: &str) -> (r: String)
    ensures
        r@ == "https://raw.githubusercontent.com/salihcantekin/RustFrame/master/resources/profiles/"@
            + platform@ + "/"@ + filename@,
{
    let mut r = string_of(
        "https://raw.githubusercontent.com/salihcantekin/RustFrame/master/resources/profiles/",
    );
    r.append(platform);
    r.append("/");
    r.append(filename);
    r
}

/// Whether a file name stays inside the directory it is joined to: it is not empty, holds
/// no `/`, and is not `..`.
pub open spec fn is_plain_file_name(name: Seq<char>) -> bool {
    name.len() > 0 && !name.contains('/') && name != ".."@
}

/// A name that every system reads as a path of one ordinary component: not empty, no
/// separator (`/`, or `\\` as Windows has it), no `:` (which can start a drive prefix on
/// Windows), and neither `.` nor `..`.
pub open spec fn is_single_component(name: Seq<char>) -> bool {
    &&& name.len() > 0
    &&& !name.contains('/')
    &&& !name.contains('\\')
    &&& !name.contains(':')
    &&& name != "."@
    &&& name != ".."@
}

/// `Path::file_name` of std, on a path given as text: its final component, where it has
/// one that is valid text. Which characters separate components depends on the system the
/// library runs on (a backslash does on Windows only), so the component of an arbitrary
/// path is not stated. What is stated holds on every system: a final component is never
/// empty, never holds `/` (a separator everywhere) and is never `..` (std gives none for a
/// path ending in `..`); and a path of one ordinary component is its own final component.
#[verifier::external_body]
fn final_path_component(path: &str) -> (r: Option<String>)
    ensures
        match r {
            Some(n) => is_plain_file_name(n@) && (is_single_component(path@) ==> n@ == path@),
            None => !is_single_component(path@),
        },
{
    std::path::Path::new(path).file_name().and_then(|n| n.to_str()).map(|n| n.to_string())
}

/// The file a profile download asks for: the given file name, or `<id>.json`.
pub open spec fn requested_name(profile_id: Seq<char>, file_name: Option<String>) -> Seq<char> {
    match file_name {
        Some(f) => f@,
        None => profile_id + ".json"@,
    }
}

/// The file a profile download asks for: the given file name, or `<id>.json`.
pub fn requested_profile_file_name(profile_id: &str, file_name: Option<String>) -> (r: String)
    ensures
        r@ == requested_name(profile_id@, file_name),
{
    match file_name {
        Some(f) => f,
        None => profile_file_name(profile_id),
    }
}

/// The file name a download saves and the URL it fetches, from the final component of the
/// requested name (None where it has none): an error where there is no final component.
pub fn profile_download_target(platform: Platform, base_name: Option<String>) -> (r: Result<
    (String, String),
    String,
>)
    ensures
        match base_name {
            Some(f) => r matches Ok((name, url)) && name == f && url@
                == "https://raw.githubusercontent.com/salihcantekin/RustFrame/master/resources/profiles/"@
                + os_profile_subdir(platform) + "/"@ + f@,
            None => r matches Err(e) && e@ == "Invalid profile file name"@,
        },
{
    match base_name {
        Some(f) => {
            let url = get_profile_download_url(get_os_profile_subdir(platform), f.as_str());
            Ok((f, url))
        },
        None => Err(string_of("Invalid profile file name")),
    }
}

/// The file name and URL of a profile download (see `profile_download_target`), the final
/// component being taken of the requested name (see `requested_name`) by `Path::file_name`.
/// A requested name of one ordinary component is downloaded under that name; a name with no
/// final component is refused.
pub fn profile_download_request(platform: Platform, profile_id: &str, file_name: Option<String>) -> (r:
    Result<(String, String), String>)
    ensures
        match r {
            Ok((name, url)) => url@
                == "https://raw.githubusercontent.com/salihcantekin/RustFrame/master/resources/profiles/"@
                + os_profile_subdir(platform) + "/"@ + name@ && is_plain_file_name(name@),
            Err(e) => e@ == "Invalid profile file name"@,
        },
        is_single_component(requested_name(profile_id@, file_name)) ==> (r matches Ok((name, url))
            && name@ == requested_name(profile_id@, file_name)),
{
    let requested = requested_profile_file_name(profile_id, file_name);
    profile_download_target(platform, final_path_component(requested.as_str()))
}

// ---------------------------------------------------------------------------
// Answers of the profile server
// ---------------------------------------------------------------------------
/// The error a profile download ends with, by the response's status code: none on success,
/// `Profile file not found on server` for 404, else a message with the status.
pub open spec fn download_status_error_of(code: u16) -> Option<Seq<char>> {
    if is_success_status(code) {
        None
    } else if code == 404 {
        Some("Profile file not found on server"@)
    } else {
        Some("Profile download failed (status "@ + status_text(code) + ")"@)
    }
}

/// The error a profile download ends with (see `download_status_error_of`).
pub fn profile_download_status_error(status: u16) -> (r: Option<String>)
    requires
        100 <= status <= 999,
    ensures
        match r {
            Some(e) => download_status_error_of(status) == Some(e@),
            None => download_status_error_of(status) is None,
        },
{
    if is_success_status_code(status) {
        return None;
    }
    if status == 404 {
        return Some(string_of("Profile file not found on server"));
    }
    let mut e = string_of("Profile download failed (status ");
    let shown = status_display(status);
    e.append(shown.as_str());
    e.append(")");
    Some(e)
}

/// The error a check for profile updates ends with, by the response's status code (see
/// `update_status_error_of`).
pub open spec fn update_status_error_of(code: u16) -> Option<Seq<char>> {
    if is_success_status(code) {
        None
    } else {
        Some("Update server error: GitHub returned status "@ + status_text(code))
    }
}

/// The error a check for profile updates ends with: none on success, else a message with
/// the status.
pub fn profile_update_status_error(status: u16) -> (r: Option<String>)
    requires
        100 <= status <= 999,
    ensures
        match r {
            Some(e) => update_status_error_of(status) == Some(e@),
            None => update_status_error_of(status) is None,
        },
{
    if is_success_status_code(status) {
        return None;
    }
    let mut e = string_of("Update server error: GitHub returned status ");
    let shown = status_display(status);
    e.append(shown.as_str());
    Some(e)
}

/// The error a downloaded profile is refused with where it is not JSON: serde_json's
/// message after `Downloaded profile has invalid JSON: `.
pub fn downloaded_profile_error(content: &str) -> (r: Option<String>)
    ensures
        match json_error_of(content@) {
            Some(m) => r matches Some(e) && e@ == "Downloaded profile has invalid JSON: "@ + m,
            None => r is None,
        },
{
    match json_error_message(content) {
        Some(m) => {
            let mut e = string_of("Downloaded profile has invalid JSON: ");
            e.append(m.as_str());
            Some(e)
        },
        None => None,
    }
}

/// The error for a profile that is not in the platform's directory.
pub fn profile_not_found_error(profile_id: &str) -> (r: String)
    ensures
        r@ == "Profile '"@ + profile_id@ + "' not found"@,
{
    let mut e = string_of("Profile '");
    e.append(profile_id);
    e.append("' not found");
    e
}

} // verus!
