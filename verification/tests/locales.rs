use rustframe::json::JsonValue;
use rustframe::locales::{
    is_valid_locale_code, list_locale_codes, load_locales, locale_code_of_file_name,
    locale_download_decision, locale_file_to_save, locales_manifest_error, requested_locale_set,
    LocaleDownloadResult, LocaleEntry, LocaleEntryDecision, LocaleOutcome,
    locale_download_totals, LocaleListingEntry,
};

#[test]
fn locale_codes() {
    assert!(is_valid_locale_code("de"));
    assert!(is_valid_locale_code("pt-BR"));
    assert!(is_valid_locale_code("zh_Hans"));
    assert!(!is_valid_locale_code(""));
    assert!(!is_valid_locale_code("a.b"));
    assert!(!is_valid_locale_code("ü"));
    assert!(is_valid_locale_code("abcdefghijklmnop"));
    assert!(!is_valid_locale_code("abcdefghijklmnopq"));
}

#[test]
fn locale_codes_of_file_names() {
    assert_eq!(locale_code_of_file_name(Some("de.json")), Some("de".to_string()));
    assert_eq!(locale_code_of_file_name(Some("de.txt")), None);
    assert_eq!(locale_code_of_file_name(Some(".json")), None);
    assert_eq!(locale_code_of_file_name(Some("a.b.json")), None);
    assert_eq!(locale_code_of_file_name(None), None);
}

#[test]
fn listed_codes_are_sorted_without_repeats() {
    let names = vec![
        Some("fr.json".to_string()),
        Some("de.json".to_string()),
        None,
        Some("readme.md".to_string()),
        Some("de.json".to_string()),
        Some("es.json".to_string()),
    ];
    assert_eq!(list_locale_codes(&names), vec!["de".to_string(), "es".to_string(), "fr".to_string()]);
}

#[test]
fn loaded_locales_are_sorted_by_code() {
    let found = vec![
        LocaleEntry { code: "fr".to_string(), data: JsonValue::Null },
        LocaleEntry { code: "de".to_string(), data: JsonValue::Bool(true) },
        LocaleEntry { code: "es".to_string(), data: JsonValue::Null },
    ];
    let sorted = load_locales(found);
    let codes: Vec<_> = sorted.iter().map(|e| e.code.as_str()).collect();
    assert_eq!(codes, vec!["de", "es", "fr"]);
    assert!(matches!(sorted[0].data, JsonValue::Bool(true)));
}

#[test]
fn requested_set_is_lower_cased() {
    assert_eq!(requested_locale_set(None), None);
    assert_eq!(requested_locale_set(Some(vec![])), None);
    assert_eq!(
        requested_locale_set(Some(vec!["DE".to_string(), "pt-BR".to_string()])),
        Some(vec!["de".to_string(), "pt-br".to_string()])
    );
}

#[test]
fn download_decisions() {
    let all = None;
    assert!(matches!(locale_download_decision("dir", "de.json", &all, true), LocaleEntryDecision::Ignore));
    assert!(matches!(locale_download_decision("file", "de.txt", &all, true), LocaleEntryDecision::Ignore));
    assert!(matches!(locale_download_decision("file", "EN.json", &all, true), LocaleEntryDecision::Ignore));
    assert!(matches!(locale_download_decision("file", "a.b.json", &all, true), LocaleEntryDecision::Skip));
    assert!(matches!(locale_download_decision("file", "de.json", &all, false), LocaleEntryDecision::Skip));
    match locale_download_decision("file", "de.json", &all, true) {
        LocaleEntryDecision::Fetch(code) => assert_eq!(code, "de"),
        other => panic!("unexpected {:?}", other),
    }
    let only_fr = requested_locale_set(Some(vec!["FR".to_string()]));
    assert!(matches!(locale_download_decision("file", "de.json", &only_fr, true), LocaleEntryDecision::Ignore));
    match locale_download_decision("file", "Fr.json", &only_fr, true) {
        LocaleEntryDecision::Fetch(code) => assert_eq!(code, "Fr"),
        other => panic!("unexpected {:?}", other),
    }
}

#[test]
fn download_tally() {
    let mut result = LocaleDownloadResult::new();
    result.record(LocaleOutcome::Downloaded);
    result.record(LocaleOutcome::Skipped);
    result.record(LocaleOutcome::Ignored);
    result.record(LocaleOutcome::Downloaded);
    assert_eq!(result, LocaleDownloadResult { downloaded: 2, skipped: 1 });
}

#[test]
fn downloaded_files() {
    assert_eq!(
        locale_file_to_save("de", Some("{\"hello\": \"Hallo\"}".to_string())),
        Some(("de.json".to_string(), "{\"hello\": \"Hallo\"}".to_string()))
    );
    assert_eq!(locale_file_to_save("de", Some("not json".to_string())), None);
    assert_eq!(locale_file_to_save("de", None), None);
}

#[test]
fn manifest_errors() {
    assert_eq!(locales_manifest_error(200), None);
    assert_eq!(locales_manifest_error(404), Some("No language files found.".to_string()));
    assert_eq!(
        locales_manifest_error(503),
        Some("Locales manifest download failed (status 503 Service Unavailable)".to_string())
    );
    assert_eq!(
        locales_manifest_error(599),
        Some("Locales manifest download failed (status 599 <unknown status code>)".to_string())
    );
}

fn listing_entry(item_type: &str, name: &str, has_download_url: bool) -> LocaleListingEntry {
    LocaleListingEntry { item_type: item_type.to_string(), name: name.to_string(), has_download_url }
}

#[test]
fn download_totals_count_every_locale_once() {
    let entries = vec![
        listing_entry("file", "en.json", true),
        listing_entry("file", "fr.json", true),
        listing_entry("file", "de.json", true),
        listing_entry("file", "bad code!.json", true),
        listing_entry("file", "it.json", false),
        listing_entry("file", "readme.md", true),
        listing_entry("dir", "es.json", true),
    ];
    let saved = vec![true, true, false, true, true, true, true];
    let totals = locale_download_totals(&entries, &None, &saved);
    assert_eq!(totals, LocaleDownloadResult { downloaded: 1, skipped: 3 });

    let requested = requested_locale_set(Some(vec!["FR".to_string()]));
    let totals = locale_download_totals(&entries, &requested, &saved);
    assert_eq!(totals, LocaleDownloadResult { downloaded: 1, skipped: 0 });

    assert_eq!(locale_download_totals(&Vec::new(), &None, &Vec::new()), LocaleDownloadResult::new());
}
