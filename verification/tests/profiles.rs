use rustframe::paths::{rustframe_config_dir_in, rustframe_profiles_dir_in};
use std::path::PathBuf;
use rustframe::json::{JsonNumber, JsonValue};
use rustframe::platform::{get_os_profile_subdir, Platform};
use rustframe::profiles::{
    capture_profile_hints, downloaded_profile_error, get_profile_download_url, profile_candidate,
    profile_details, profile_download_request, profile_download_status_error,
    profile_download_target, profile_file_name, profile_info_from_document, profile_not_found_error,
    profile_update_status_error, scan_capture_profiles, trim_end_matches, trim_start_matches,
    CaptureProfileInfo,
};

fn obj(entries: Vec<(&str, JsonValue)>) -> JsonValue {
    JsonValue::Object(entries.into_iter().map(|(k, v)| (k.to_string(), v)).collect())
}

fn info(id: &str, file_name: &str) -> CaptureProfileInfo {
    CaptureProfileInfo { id: id.to_string(), file_name: file_name.to_string(), name: None }
}

#[test]
fn scan_capture_profiles_includes_os_and_root() {
    // Directory entries of Profiles/linux, then of Profiles itself.
    let names = vec![
        (Some("discord.json"), false),
        (Some("profile_zoom.json"), false),
        (Some("ignore.txt"), false),
        (Some("bad.json"), false),
    ];
    let mut found = Vec::new();
    for (name, is_dir) in names {
        if let Some(id) = profile_candidate(name, is_dir) {
            // bad.json holds a JSON string, not an object.
            let document = if id == "bad" {
                Some(JsonValue::String("string".to_string()))
            } else {
                Some(obj(vec![("ok", JsonValue::Bool(true))]))
            };
            if let Some(p) = profile_info_from_document(id, name.unwrap().to_string(), document) {
                found.push(p);
            }
        }
    }
    let profiles_list = scan_capture_profiles(found);
    let ids: Vec<_> = profiles_list.iter().map(|p| p.id.as_str()).collect();

    assert!(ids.contains(&"discord"));
    assert!(ids.contains(&"zoom"));
    assert_eq!(profiles_list.len(), 2);
}

#[test]
fn profile_ids_of_file_names() {
    assert_eq!(profile_candidate(Some("profile_zoom.json"), false), Some("zoom".to_string()));
    assert_eq!(profile_candidate(Some("discord.json"), false), Some("discord".to_string()));
    assert_eq!(profile_candidate(Some("version.json"), false), None);
    assert_eq!(profile_candidate(Some("notes.txt"), false), None);
    assert_eq!(profile_candidate(Some(".json"), false), None);
    assert_eq!(profile_candidate(Some("dir.json"), true), None);
    assert_eq!(profile_candidate(None, false), None);
    assert_eq!(profile_candidate(Some("a.json.json"), false), Some("a".to_string()));
}

#[test]
fn trimming_repeated_affixes() {
    assert_eq!(trim_start_matches("profile_profile_x", "profile_"), "x");
    assert_eq!(trim_end_matches("x.json.json", ".json"), "x");
    assert_eq!(trim_end_matches("x", ""), "x");
}

#[test]
fn scan_keeps_first_of_each_id_in_id_order() {
    let found = vec![info("zoom", "zoom.json"), info("discord", "discord.json"), info("zoom", "profile_zoom.json")];
    let r = scan_capture_profiles(found);
    assert_eq!(r.len(), 2);
    assert_eq!(r[0].id, "discord");
    assert_eq!(r[1].id, "zoom");
    assert_eq!(r[1].file_name, "zoom.json");
}

#[test]
fn profile_names_come_from_documents() {
    let doc = obj(vec![("name", JsonValue::String("Discord".to_string()))]);
    let p = profile_info_from_document("discord".to_string(), "discord.json".to_string(), Some(doc)).unwrap();
    assert_eq!(p.name, Some("Discord".to_string()));
    let unnamed = profile_info_from_document("x".to_string(), "x.json".to_string(), Some(obj(vec![]))).unwrap();
    assert_eq!(unnamed.name, None);
    assert!(profile_info_from_document("x".to_string(), "x.json".to_string(), None).is_none());
}

#[test]
fn hints_read_the_taskbar_delay() {
    let doc = obj(vec![(
        "winapi_destination_hide_taskbar_after_ms",
        JsonValue::Number(JsonNumber::PosInt(1500)),
    )]);
    assert_eq!(capture_profile_hints(Some(&doc)).hide_taskbar_after_ms, Some(1500));
    let too_big = obj(vec![(
        "winapi_destination_hide_taskbar_after_ms",
        JsonValue::Number(JsonNumber::PosInt(1 << 40)),
    )]);
    assert_eq!(capture_profile_hints(Some(&too_big)).hide_taskbar_after_ms, None);
    assert_eq!(capture_profile_hints(None).hide_taskbar_after_ms, None);
}

#[test]
fn details_fall_back_to_the_id() {
    let d = profile_details("demo".to_string(), obj(vec![]));
    assert_eq!(d.name, "demo");
    assert_eq!(d.description, "");
    assert_eq!(d.version, "1.0.0");
    assert_eq!(d.file_name, "demo.json");
    let named = profile_details(
        "demo".to_string(),
        obj(vec![
            ("name", JsonValue::String("Demo".to_string())),
            ("description", JsonValue::String("A demo".to_string())),
        ]),
    );
    assert_eq!(named.name, "Demo");
    assert_eq!(named.description, "A demo");
}

#[test]
fn download_urls() {
    assert_eq!(
        get_profile_download_url("windows", "discord.json"),
        "https://raw.githubusercontent.com/salihcantekin/RustFrame/master/resources/profiles/windows/discord.json"
    );
    assert_eq!(profile_file_name("zoom"), "zoom.json");
    assert_eq!(get_os_profile_subdir(Platform::Linux), "linux");
    assert_eq!(get_os_profile_subdir(Platform::MacOS), "macos");
}

#[test]
fn download_targets() {
    let (name, url) = profile_download_target(Platform::MacOS, Some("zoom.json".to_string())).unwrap();
    assert_eq!(name, "zoom.json");
    assert!(url.ends_with("/profiles/macos/zoom.json"));
    assert_eq!(profile_download_target(Platform::MacOS, None), Err("Invalid profile file name".to_string()));
    let (name, url) = profile_download_request(Platform::Linux, "discord", None).unwrap();
    assert_eq!(name, "discord.json");
    assert!(url.ends_with("/profiles/linux/discord.json"));
    let (name, _) = profile_download_request(Platform::Linux, "x", Some("nested/dir/y.json".to_string())).unwrap();
    assert_eq!(name, "y.json");
    let (name, url) = profile_download_request(Platform::Windows, "x", Some("teams.json".to_string())).unwrap();
    assert_eq!(name, "teams.json");
    assert!(url.ends_with("/profiles/windows/teams.json"));
    assert_eq!(
        profile_download_request(Platform::Linux, "x", Some("..".to_string())),
        Err("Invalid profile file name".to_string())
    );
    assert_eq!(
        profile_download_request(Platform::Linux, "x", Some(String::new())),
        Err("Invalid profile file name".to_string())
    );
}

#[test]
fn server_answers() {
    assert_eq!(profile_download_status_error(200), None);
    assert_eq!(profile_download_status_error(404), Some("Profile file not found on server".to_string()));
    assert_eq!(
        profile_download_status_error(500),
        Some("Profile download failed (status 500 Internal Server Error)".to_string())
    );
    assert_eq!(profile_update_status_error(204), None);
    assert_eq!(
        profile_update_status_error(403),
        Some("Update server error: GitHub returned status 403 Forbidden".to_string())
    );
    assert_eq!(profile_not_found_error("zoom"), "Profile 'zoom' not found");
}

#[test]
fn downloaded_profiles_must_be_json() {
    assert_eq!(downloaded_profile_error("{\"a\": 1}"), None);
    let e = downloaded_profile_error("{oops").unwrap();
    assert!(e.starts_with("Downloaded profile has invalid JSON: "));
    assert!(e.len() > "Downloaded profile has invalid JSON: ".len());
}

#[test]
fn application_directories_below_the_user_config_dir() {
    let root = PathBuf::from("/home/user/.config");
    let d = rustframe_config_dir_in(Some(root.clone())).unwrap();
    assert_eq!(d.root, root);
    assert_eq!(d.parts, vec!["RustFrame".to_string()]);
    let p = rustframe_profiles_dir_in(Some(root.clone())).unwrap();
    assert_eq!(p.root, root);
    assert_eq!(p.parts, vec!["RustFrame".to_string(), "Profiles".to_string()]);
    assert!(rustframe_config_dir_in(None).is_none());
    assert!(rustframe_profiles_dir_in(None).is_none());
}
