use idf_mirror::policy::{correct_name, decide, last_path_segment, name_corrections, starts_with, Decision};
use idf_mirror::rewrite::{plan_rewrites, SubEntry, UrlChange};

fn entry(name: &str, url: &str) -> SubEntry {
    SubEntry { name: name.to_string(), url: url.to_string(), path: format!("components/{}", name) }
}

#[test]
fn relative_unity_is_corrected() {
    let d = decide("../../unity", "https://mirror.local/");
    assert_eq!(d, Decision::Rewrite("https://mirror.local/Unity".to_string()));
}

#[test]
fn unknown_host_is_skipped() {
    assert_eq!(decide("https://example.com/other/project", "https://mirror.local/"), Decision::Skip);
    assert_eq!(decide("https://example.com/other/project", ""), Decision::Skip);
}

#[test]
fn public_cexception_is_corrected() {
    let d = decide("https://github.com/espressif/cexception", "https://mirror.local/");
    assert_eq!(d, Decision::Rewrite("https://mirror.local/CException".to_string()));
}

#[test]
fn new_url_is_base_and_name_without_separator() {
    let d = decide("https://github.com/espressif/esp-mqtt.git", "https://mirror.local/group-");
    assert_eq!(d, Decision::Rewrite("https://mirror.local/group-esp-mqtt.git".to_string()));
    let d = decide("../../esp-coredump", "https://mirror.local");
    assert_eq!(d, Decision::Rewrite("https://mirror.localesp-coredump".to_string()));
}

#[test]
fn already_mirrored_and_malformed_are_skipped() {
    assert_eq!(decide("https://mirror.local/Unity", "https://mirror.local/"), Decision::Skip);
    assert_eq!(decide("../unity", "https://mirror.local/"), Decision::Skip);
    assert_eq!(decide("", "https://mirror.local/"), Decision::Skip);
    assert_eq!(decide("http://github.com/x/y", "https://mirror.local/"), Decision::Skip);
}

#[test]
fn correction_is_prefix_matched_and_case_sensitive() {
    assert_eq!(correct_name("unity"), "Unity");
    assert_eq!(correct_name("unity.git"), "Unity");
    assert_eq!(correct_name("cexception"), "CException");
    assert_eq!(correct_name("Unity"), "Unity");
    assert_eq!(correct_name("my-unity"), "my-unity");
    assert_eq!(correct_name("esp32-camera"), "esp32-camera");
}

#[test]
fn correction_twice_equals_once() {
    for name in ["unity", "unityX", "cexception", "Unity", "CException", "mbedtls", ""] {
        let once = correct_name(name);
        assert_eq!(correct_name(&once), once);
    }
}

#[test]
fn correction_table_order() {
    let t = name_corrections();
    assert_eq!(t.len(), 2);
    assert_eq!(t[0].prefix, "unity");
    assert_eq!(t[0].canonical, "Unity");
    assert_eq!(t[1].prefix, "cexception");
    assert_eq!(t[1].canonical, "CException");
}

#[test]
fn last_segment_cases() {
    assert_eq!(last_path_segment("https://github.com/espressif/esp-mqtt"), "esp-mqtt");
    assert_eq!(last_path_segment("plain"), "plain");
    assert_eq!(last_path_segment("ends/with/"), "");
    assert_eq!(last_path_segment(""), "");
}

#[test]
fn prefix_test() {
    assert!(starts_with("../../unity", "../../"));
    assert!(!starts_with("../unity", "../../"));
    assert!(starts_with("abc", ""));
    assert!(!starts_with("ab", "abc"));
}

#[test]
fn plan_keeps_order_and_skips_ineligible() {
    let entries = vec![
        entry("components/unity", "../../unity"),
        entry("components/other", "https://example.com/other/project"),
        entry("components/mqtt", "https://github.com/espressif/esp-mqtt.git"),
    ];
    let changes = plan_rewrites(&entries, "https://mirror.local/");
    assert_eq!(
        changes,
        vec![
            UrlChange { name: "components/unity".to_string(), url: "https://mirror.local/Unity".to_string() },
            UrlChange {
                name: "components/mqtt".to_string(),
                url: "https://mirror.local/esp-mqtt.git".to_string()
            },
        ]
    );
    assert!(plan_rewrites(&Vec::new(), "https://mirror.local/").is_empty());
}
