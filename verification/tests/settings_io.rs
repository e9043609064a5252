use rustframe::json::{merge_json, JsonNumber, JsonValue};
use rustframe::platform::Platform;
use rustframe::profiles::{profile_override_candidates, select_profile_overrides};
use rustframe::settings_io::{
    apply_profile_overrides_document, bootstrap_settings_document, is_capture_method_unsupported,
    merge_json_preserve_hidden, normalize_filter_mode, normalize_shortcut,
    read_active_profile_from_value, sanitize_settings_json_for_platform,
    settings_document_for_save, settings_document_from_disk, write_active_profile_to_value,
};

fn obj(entries: Vec<(&str, JsonValue)>) -> JsonValue {
    JsonValue::Object(entries.into_iter().map(|(k, v)| (k.to_string(), v)).collect())
}

fn text(v: &str) -> JsonValue {
    JsonValue::String(v.to_string())
}

fn num(v: u64) -> JsonValue {
    JsonValue::Number(JsonNumber::PosInt(v))
}

fn nums(v: &JsonValue) -> Vec<u64> {
    match v {
        JsonValue::Array(items) => items.iter().map(|i| i.as_u64().unwrap()).collect(),
        _ => panic!("not an array"),
    }
}

fn keys(v: &JsonValue) -> Vec<String> {
    match v {
        JsonValue::Object(entries) => entries.iter().map(|(k, _)| k.clone()).collect(),
        _ => Vec::new(),
    }
}

#[test]
fn sanitize_converts_border_color_u32() {
    let mut value = obj(vec![("border_color", num(0xFF112233u32 as u64))]);
    sanitize_settings_json_for_platform(&mut value, Platform::Linux);
    assert_eq!(nums(value.get("border_color").unwrap()), vec![17, 34, 51, 255]);
}

#[test]
fn sanitize_removes_auto_capture_method() {
    let mut value = obj(vec![("capture_method", text("auto"))]);
    sanitize_settings_json_for_platform(&mut value, Platform::Linux);
    assert!(value.get("capture_method").is_none());
}

#[test]
fn sanitize_normalizes_window_filter_mode_and_preview_exclusion() {
    let mut value = obj(vec![(
        "window_filter",
        obj(vec![("mode", text("Exclude")), ("auto_exclude_preview", JsonValue::Bool(false))]),
    )]);
    sanitize_settings_json_for_platform(&mut value, Platform::Linux);
    let filter = value.get("window_filter").unwrap();
    assert_eq!(filter.get("mode").unwrap().as_str(), Some("exclude_list"));
    assert_eq!(filter.get("auto_exclude_preview").unwrap().as_bool(), Some(true));
    assert!(filter.get("included_windows").unwrap().is_array());
}

#[test]
fn sanitize_removes_winapi_preview_mode_on_non_windows() {
    let mut value = obj(vec![("preview_mode", text("WinApiGdi"))]);
    sanitize_settings_json_for_platform(&mut value, Platform::Linux);
    assert!(value.get("preview_mode").is_none());
}

#[test]
fn sanitize_keeps_winapi_preview_mode_on_windows() {
    let mut value = obj(vec![("preview_mode", text("WinApiGdi"))]);
    sanitize_settings_json_for_platform(&mut value, Platform::Windows);
    assert_eq!(value.get("preview_mode").unwrap().as_str(), Some("WinApiGdi"));
}

#[test]
fn sanitize_rewrites_plus_shortcut_token() {
    let mut value = obj(vec![("shortcuts", obj(vec![("zoom_in", text("CmdOrCtrl+Shift+Plus"))]))]);
    sanitize_settings_json_for_platform(&mut value, Platform::Linux);
    assert_eq!(
        value.get("shortcuts").unwrap().get("zoom_in").unwrap().as_str(),
        Some("CmdOrCtrl+Shift+Equal")
    );
}

#[test]
fn apply_profile_overrides_merges_settings() {
    let base = obj(vec![
        ("border_width", num(4)),
        ("show_border", JsonValue::Bool(true)),
        ("capture_clicks", JsonValue::Bool(true)),
        ("target_fps", num(60)),
    ]);
    let overrides = obj(vec![
        ("border_width", num(12)),
        ("show_border", JsonValue::Bool(false)),
        ("capture_clicks", JsonValue::Bool(false)),
    ]);

    let merged = apply_profile_overrides_document(base, overrides);
    assert_eq!(merged.get("border_width").unwrap().as_u64(), Some(12));
    assert_eq!(merged.get("show_border").unwrap().as_bool(), Some(false));
    assert_eq!(merged.get("capture_clicks").unwrap().as_bool(), Some(false));
    assert_eq!(merged.get("target_fps").unwrap().as_u64(), Some(60));
}

#[test]
fn read_profile_overrides_falls_back_to_legacy_names() {
    let candidates = profile_override_candidates(Platform::Linux, "legacy");
    assert_eq!(candidates[0], vec!["linux".to_string(), "legacy.json".to_string()]);
    assert_eq!(candidates[1], vec!["profile_legacy.json".to_string()]);
    assert_eq!(candidates[2], vec!["legacy.json".to_string()]);

    let documents = vec![None, Some(obj(vec![("border_width", num(11))])), None];
    let value = select_profile_overrides(documents).unwrap();
    assert_eq!(value.get("border_width").unwrap().as_u64(), Some(11));
}

// ---------------------------------------------------------------------------
// Further cases
// ---------------------------------------------------------------------------

#[test]
fn read_profile_overrides_prefers_os_dir() {
    let documents = vec![
        Some(obj(vec![("border_width", num(7))])),
        None,
        Some(obj(vec![("border_width", num(3))])),
    ];
    let value = select_profile_overrides(documents).unwrap();
    assert_eq!(value.get("border_width").unwrap().as_u64(), Some(7));
}

#[test]
fn profile_overrides_skip_documents_that_are_not_objects() {
    let documents = vec![Some(text("string")), Some(num(3)), None];
    assert!(select_profile_overrides(documents).is_none());
}

#[test]
fn sanitize_keeps_supported_capture_method_and_drops_windows_one_elsewhere() {
    assert!(is_capture_method_unsupported("auto", Platform::Windows));
    assert!(is_capture_method_unsupported("Wgc", Platform::Linux));
    assert!(!is_capture_method_unsupported("Wgc", Platform::Windows));
    assert!(!is_capture_method_unsupported("CoreGraphics", Platform::MacOS));
}

#[test]
fn filter_mode_names_are_normalized() {
    assert_eq!(normalize_filter_mode("exclude"), "exclude_list");
    assert_eq!(normalize_filter_mode("include"), "include_only");
    assert_eq!(normalize_filter_mode("none"), "none");
}

#[test]
fn shortcut_normalization_rewrites_plus() {
    assert_eq!(normalize_shortcut("CmdOrCtrl+Shift+Plus"), Some("CmdOrCtrl+Shift+Equal".to_string()));
    assert_eq!(normalize_shortcut("CmdOrCtrl + Shift + R"), Some("CmdOrCtrl+Shift+R".to_string()));
    assert_eq!(normalize_shortcut(" + "), None);
}

#[test]
fn write_and_read_active_profile() {
    let doc = obj(vec![("border_width", num(4))]);
    let with = write_active_profile_to_value(doc, Some("demo".to_string()));
    assert_eq!(read_active_profile_from_value(&with), Some("demo".to_string()));
    let without = write_active_profile_to_value(with, None);
    assert_eq!(read_active_profile_from_value(&without), None);
    assert_eq!(without.get("border_width").unwrap().as_u64(), Some(4));
}

#[test]
fn active_profile_replaces_a_document_that_is_not_an_object() {
    let with = write_active_profile_to_value(num(3), Some("zoom".to_string()));
    assert_eq!(read_active_profile_from_value(&with), Some("zoom".to_string()));
    assert_eq!(keys(&with), vec!["active_profile".to_string()]);
}

#[test]
fn saving_keeps_a_hidden_key_that_the_new_settings_leave_null() {
    let existing = obj(vec![("debug_allow_screen_capture", JsonValue::Bool(true)), ("border_width", num(4))]);
    let new_value = obj(vec![("debug_allow_screen_capture", JsonValue::Null), ("border_width", num(9))]);
    let saved = settings_document_for_save(Some(existing), new_value);
    assert_eq!(saved.get("debug_allow_screen_capture").unwrap().as_bool(), Some(true));
    assert_eq!(saved.get("border_width").unwrap().as_u64(), Some(9));
}

#[test]
fn merge_preserving_hidden_keys_adds_new_keys() {
    let mut base = obj(vec![("a", num(1))]);
    let overlay = obj(vec![("b", num(2)), ("hidden", JsonValue::Null)]);
    merge_json_preserve_hidden(&mut base, overlay, &vec!["hidden".to_string()]);
    assert_eq!(keys(&base), vec!["a".to_string(), "b".to_string()]);
}

#[test]
fn merge_replaces_scalars_and_merges_objects() {
    let mut base = obj(vec![("a", obj(vec![("x", num(1)), ("y", num(2))])), ("b", num(3))]);
    let overlay = obj(vec![("a", obj(vec![("y", num(20))])), ("b", text("z"))]);
    merge_json(&mut base, overlay);
    let a = base.get("a").unwrap();
    assert_eq!(a.get("x").unwrap().as_u64(), Some(1));
    assert_eq!(a.get("y").unwrap().as_u64(), Some(20));
    assert_eq!(base.get("b").unwrap().as_str(), Some("z"));
}

#[test]
fn settings_from_disk_reads_the_active_profile_and_fills_defaults() {
    let defaults = obj(vec![("border_width", num(4)), ("capture_method", text("CoreGraphics"))]);
    let raw = obj(vec![("active_profile", text("discord")), ("capture_method", text("auto"))]);
    let (doc, profile) = settings_document_from_disk(Some(raw), defaults, Platform::Linux);
    assert_eq!(profile, Some("discord".to_string()));
    assert_eq!(doc.get("capture_method").unwrap().as_str(), Some("CoreGraphics"));
    assert_eq!(doc.get("border_width").unwrap().as_u64(), Some(4));
}

#[test]
fn unreadable_settings_file_gives_the_defaults() {
    let defaults = obj(vec![("border_width", num(4))]);
    let (doc, profile) = settings_document_from_disk(None, defaults, Platform::Linux);
    assert_eq!(profile, None);
    assert_eq!(doc.get("border_width").unwrap().as_u64(), Some(4));
}

#[test]
fn bootstrap_merges_bundled_defaults_then_sanitizes() {
    let defaults = obj(vec![("border_width", num(4)), ("preview_mode", text("Native"))]);
    let bundled = obj(vec![("border_width", num(6)), ("preview_mode", text("WinApiGdi"))]);
    let doc = bootstrap_settings_document(defaults, Some(bundled), Platform::MacOS);
    assert_eq!(doc.get("border_width").unwrap().as_u64(), Some(6));
    assert!(doc.get("preview_mode").is_none());
}

#[test]
fn merging_twice_is_merging_once() {
    let base = obj(vec![("a", obj(vec![("x", num(1))])), ("b", num(3))]);
    let overlay = obj(vec![("a", obj(vec![("y", num(2))])), ("c", text("new"))]);
    let mut once = apply_profile_overrides_document(base, overlay);
    let again_overlay = obj(vec![("a", obj(vec![("y", num(2))])), ("c", text("new"))]);
    let before = format!("{:?}", once);
    merge_json(&mut once, again_overlay);
    assert_eq!(format!("{:?}", once), before);
}

#[test]
fn merging_a_document_onto_itself_changes_nothing() {
    let doc = || obj(vec![("a", obj(vec![("x", num(1))])), ("b", JsonValue::Array(vec![num(1), num(2)]))]);
    let mut merged = doc();
    merge_json(&mut merged, doc());
    assert_eq!(format!("{:?}", merged), format!("{:?}", doc()));
}

#[test]
fn merging_an_empty_overlay_changes_nothing() {
    let doc = || obj(vec![("a", num(1))]);
    let mut merged = doc();
    merge_json(&mut merged, obj(vec![]));
    assert_eq!(format!("{:?}", merged), format!("{:?}", doc()));
}

fn messy_settings() -> JsonValue {
    obj(vec![
        ("border_color", num(0xFF112233)),
        ("capture_method", text("Wgc")),
        ("preview_mode", text("WinApiGdi")),
        (
            "window_filter",
            obj(vec![("mode", text("Include")), ("auto_exclude_preview", JsonValue::Bool(false))]),
        ),
        (
            "shortcuts",
            obj(vec![("zoom_in", text(" CmdOrCtrl + Shift + plus ")), ("zoom_out", text(" + "))]),
        ),
    ])
}

#[test]
fn sanitizing_twice_changes_nothing() {
    for platform in [Platform::Windows, Platform::MacOS, Platform::Linux] {
        let mut once = messy_settings();
        sanitize_settings_json_for_platform(&mut once, platform);
        let mut twice = messy_settings();
        sanitize_settings_json_for_platform(&mut twice, platform);
        sanitize_settings_json_for_platform(&mut twice, platform);
        assert_eq!(format!("{:?}", twice), format!("{:?}", once));
    }
    let mut value = messy_settings();
    sanitize_settings_json_for_platform(&mut value, Platform::Linux);
    let shortcuts = value.get("shortcuts").unwrap();
    assert_eq!(shortcuts.get("zoom_in").unwrap().as_str(), Some("CmdOrCtrl+Shift+Equal"));
    assert_eq!(value.get("window_filter").unwrap().get("mode").unwrap().as_str(), Some("include_only"));
}
