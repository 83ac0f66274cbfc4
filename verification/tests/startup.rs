use spt_modpack_updater::launch::{git_program, is_spt_folder, saved_branch};
use spt_modpack_updater::manifest::{manifest_events, Manifest};
use spt_modpack_updater::progress::ProgressEvent;
use spt_modpack_updater::spt::{version_from_target, version_from_targets, version_of_runtime};

#[test]
fn spt_folder_needs_the_game_and_a_mod_folder() {
    assert!(is_spt_folder(true, true, false));
    assert!(is_spt_folder(true, false, true));
    assert!(is_spt_folder(true, true, true));
    assert!(!is_spt_folder(true, false, false));
    assert!(!is_spt_folder(false, true, true));
}

#[test]
fn saved_branch_or_default() {
    assert_eq!(saved_branch(Some("  dev\n"), "main"), "dev");
    assert_eq!(saved_branch(Some(" \n\t"), "main"), "main");
    assert_eq!(saved_branch(Some(""), "main"), "main");
    assert_eq!(saved_branch(None, "main"), "main");
}

#[test]
fn spt_version_of_a_target_key() {
    assert_eq!(version_from_target("SPT.Server/4.0.13-RELEASE+hash"), "4.0.13");
    assert_eq!(version_from_target("SPT.Server/3.10.5"), "3.10.5");
    assert_eq!(version_from_target("a/b/c"), "b");
    assert_eq!(version_from_target("no-slash"), "unknown");
    assert_eq!(version_from_target("x/"), "");
}

#[test]
fn spt_version_of_the_first_target() {
    assert_eq!(version_from_targets(&vec![]), None);
    assert_eq!(
        version_from_targets(&vec!["SPT.Server/4.0.1-x".to_string(), "other/9".to_string()]),
        Some("4.0.1".to_string())
    );
}

#[test]
fn manifest_log_lines() {
    let m = Manifest {
        name: "n".to_string(),
        description: "A pack".to_string(),
        spt_version: "4".to_string(),
        author: None,
        website: None,
        changelog: vec!["one".to_string()],
    };
    assert_eq!(
        manifest_events(&m),
        vec![
            ProgressEvent::Log("".to_string()),
            ProgressEvent::Log("  A pack".to_string()),
            ProgressEvent::Log("  Changelog:".to_string()),
            ProgressEvent::Log("    • one".to_string()),
        ]
    );
}

#[test]
fn bundled_git_first() {
    assert_eq!(git_program(true), "git/git.exe");
    assert_eq!(git_program(false), "git");
}

#[test]
fn runtime_configuration_names_the_version() {
    let content = r#"{"runtimeTarget":{"name":".NETCoreApp"},
        "targets":{"SPT.Server/4.0.13-RELEASE+abc":{"dep":"x"}}}"#;
    assert_eq!(version_of_runtime(content), Some("4.0.13".to_string()));
}

#[test]
fn runtime_configuration_without_targets() {
    assert_eq!(version_of_runtime("not json"), None);
    assert_eq!(version_of_runtime(r#"{"other":1}"#), None);
    assert_eq!(version_of_runtime(r#"{"targets":[]}"#), None);
    assert_eq!(version_of_runtime(r#"{"targets":{}}"#), None);
}

#[test]
fn runtime_configuration_takes_the_first_key() {
    // serde_json hands keys out in sorted order.
    assert_eq!(
        version_of_runtime(r#"{"targets":{"b/2.0.0":{},"a/1.0.0-rc":{}}}"#),
        Some("1.0.0".to_string())
    );
    assert_eq!(version_of_runtime(r#"{"targets":{"noslash":{}}}"#), Some("unknown".to_string()));
}
