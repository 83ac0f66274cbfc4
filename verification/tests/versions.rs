use spt_modpack_updater::progress::ProgressEvent;
use spt_modpack_updater::updater::{
    check_self_update, download_progress, download_total, is_newer, latest_download,
    latest_release_download, parse_version, Release, ReleaseAsset,
};

#[test]
fn newer_compares_numerically() {
    assert!(is_newer("1.2.0", "1.1.9"));
    assert!(is_newer("1.10.0", "1.9.0"));
    assert!(!is_newer("1.9.0", "1.10.0"));
}

#[test]
fn newer_is_false_for_equal_versions() {
    assert!(!is_newer("1.0.0", "1.0.0"));
    assert!(!is_newer("v1.2", "1.2"));
    assert!(!is_newer("1.2", "v1.2"));
}

#[test]
fn newer_with_more_parts() {
    assert!(is_newer("1.2.1", "1.2"));
    assert!(!is_newer("1.2", "1.2.0"));
    assert!(is_newer("1.2.0", "1.2"));
}

#[test]
fn newer_skips_parts_that_are_not_numbers() {
    assert!(is_newer("2.0.0-beta", "1.9"));
    assert!(!is_newer("abc", "1.0"));
    assert!(is_newer("1.0", "abc"));
    assert!(is_newer("vv2", "1"));
}

#[test]
fn version_numbers() {
    assert_eq!(parse_version("v1.4.2"), vec![1, 4, 2]);
    assert_eq!(parse_version("1..3"), vec![1, 3]);
    assert_eq!(parse_version(""), Vec::<u32>::new());
    assert_eq!(parse_version("4294967296.1"), vec![1]);
    assert_eq!(parse_version("+3.x.07"), vec![3, 7]);
}

fn asset(name: Option<&str>, url: Option<&str>) -> ReleaseAsset {
    ReleaseAsset { name: name.map(|s| s.to_string()), download_url: url.map(|s| s.to_string()) }
}

#[test]
fn release_download_picks_the_executable() {
    let r = Release {
        tag_name: Some("v1.3.0".to_string()),
        assets: Some(vec![
            asset(Some("other.zip"), Some("https://x/other.zip")),
            asset(None, Some("https://x/none")),
            asset(Some("spt-modpack-updater.exe"), Some("https://x/u.exe")),
        ]),
    };
    assert_eq!(latest_download(&r), Some(("1.3.0".to_string(), "https://x/u.exe".to_string())));
}

#[test]
fn release_download_needs_a_tag() {
    let assets = Some(vec![asset(Some("spt-modpack-updater.exe"), Some("u"))]);
    assert_eq!(latest_download(&Release { tag_name: None, assets: assets.clone() }), None);
    assert_eq!(
        latest_download(&Release { tag_name: Some("vv".to_string()), assets: assets.clone() }),
        None
    );
    assert_eq!(
        latest_download(&Release { tag_name: Some("2".to_string()), assets }),
        Some(("2".to_string(), "u".to_string()))
    );
}

#[test]
fn release_download_uses_the_first_matching_asset() {
    let r = Release {
        tag_name: Some("1.0".to_string()),
        assets: Some(vec![
            asset(Some("spt-modpack-updater.exe"), None),
            asset(Some("spt-modpack-updater.exe"), Some("u")),
        ]),
    };
    assert_eq!(latest_download(&r), None);
    assert_eq!(latest_download(&Release { tag_name: Some("1.0".to_string()), assets: None }), None);
    assert_eq!(
        latest_download(&Release { tag_name: Some("1.0".to_string()), assets: Some(vec![]) }),
        None
    );
}

#[test]
fn self_update_is_announced_only_for_newer_releases() {
    assert_eq!(
        check_self_update(Some(("9.9.9".to_string(), "u".to_string())), "1.0.0"),
        Some(ProgressEvent::SelfUpdateAvailable { version: "9.9.9".to_string(), url: "u".to_string() })
    );
    assert_eq!(check_self_update(Some(("1.0.0".to_string(), "u".to_string())), "1.0.0"), None);
    assert_eq!(check_self_update(Some(("0.9".to_string(), "u".to_string())), "1.0.0"), None);
    assert_eq!(check_self_update(None, "1.0.0"), None);
}

#[test]
fn download_progress_only_with_a_known_length() {
    assert_eq!(download_progress(10, 0), None);
    assert_eq!(
        download_progress(10, 100),
        Some(ProgressEvent::Phase { name: "Downloading".to_string(), current: 10, total: 100 })
    );
}

#[test]
fn release_description_is_read_from_json() {
    let body = r#"{"tag_name":"v1.4.2","assets":[
        {"name":"notes.txt","browser_download_url":"https://example.org/notes.txt"},
        {"name":"spt-modpack-updater.exe","browser_download_url":"https://example.org/u.exe"}
    ]}"#;
    assert_eq!(
        latest_release_download(body),
        Some(Some(("1.4.2".to_string(), "https://example.org/u.exe".to_string())))
    );
}

#[test]
fn release_description_that_is_not_json() {
    assert_eq!(latest_release_download("not json"), None);
    assert_eq!(latest_release_download(""), None);
}

#[test]
fn release_description_with_missing_or_odd_fields() {
    // No tag.
    assert_eq!(
        latest_release_download(
            r#"{"assets":[{"name":"spt-modpack-updater.exe","browser_download_url":"u"}]}"#
        ),
        Some(None)
    );
    // A tag that is not a string.
    assert_eq!(
        latest_release_download(
            r#"{"tag_name":5,"assets":[{"name":"spt-modpack-updater.exe","browser_download_url":"u"}]}"#
        ),
        Some(None)
    );
    // Assets that are not a list.
    assert_eq!(latest_release_download(r#"{"tag_name":"v1","assets":{}}"#), Some(None));
    // The executable without an address.
    assert_eq!(
        latest_release_download(r#"{"tag_name":"v1","assets":[{"name":"spt-modpack-updater.exe"}]}"#),
        Some(None)
    );
    // A JSON value that is not an object.
    assert_eq!(latest_release_download("[1, 2]"), Some(None));
}

#[test]
fn download_size_from_header() {
    assert_eq!(download_total(Some("12345")), 12345);
    assert_eq!(download_total(Some("+7")), 7);
    assert_eq!(download_total(Some(" 7")), 0);
    assert_eq!(download_total(Some("abc")), 0);
    assert_eq!(download_total(Some("18446744073709551616")), 0);
    assert_eq!(download_total(None), 0);
}
