use idf_mirror::package::{prepare_package, PackageStep};
use idf_mirror::session::{get_esp_idf_directory, get_initializer, get_initializer_arguments, get_shell};
use idf_mirror::update::{select_update, update_submodule, UpdateOptions, UpdateStrategy};

fn strings(v: &[&str]) -> Vec<String> {
    v.iter().map(|s| s.to_string()).collect()
}

#[test]
fn shallow_update_arguments_with_progress() {
    let args = update_submodule("/idf".to_string(), "components/unity".to_string(), "1".to_string(), true);
    assert_eq!(
        args,
        strings(&[
            "-C", "/idf", "submodule", "update", "--depth", "1", "--progress", "--recommend-shallow",
            "--recursive", "components/unity"
        ])
    );
}

#[test]
fn shallow_update_arguments_without_progress() {
    let args = update_submodule("/idf".to_string(), "x".to_string(), "7".to_string(), false);
    assert_eq!(
        args,
        strings(&["-C", "/idf", "submodule", "update", "--depth", "7", "--recommend-shallow", "--recursive", "x"])
    );
}

#[test]
fn no_depth_uses_library_update() {
    let options = UpdateOptions { depth: None, show_progress: true };
    let s = select_update(&"/idf".to_string(), &"components/unity".to_string(), &options);
    assert_eq!(s, UpdateStrategy::Native { name: "components/unity".to_string() });
}

#[test]
fn depth_goes_to_external_tool_unchanged() {
    let options = UpdateOptions { depth: Some("3".to_string()), show_progress: false };
    let s = select_update(&"/idf".to_string(), &"a".to_string(), &options);
    match s {
        UpdateStrategy::External { args } => {
            assert_eq!(args[5], "3");
            assert_eq!(args, update_submodule("/idf".to_string(), "a".to_string(), "3".to_string(), false));
        }
        UpdateStrategy::Native { .. } => panic!("expected the external tool"),
    }
}

#[test]
fn esp_idf_directory_flattens_version() {
    assert_eq!(get_esp_idf_directory("release/v4.4", "/tools"), "/tools/frameworks/esp-idf-release-v4.4");
    assert_eq!(get_esp_idf_directory("v4.4", "/t"), "/t/frameworks/esp-idf-v4.4");
    assert_eq!(get_esp_idf_directory("a//b/", ""), "/frameworks/esp-idf-a--b-");
}

#[test]
fn shell_setup() {
    assert_eq!(get_shell(), "/bin/bash");
    assert_eq!(get_initializer("/idf"), "/idf/export.sh");
    let args = get_initializer_arguments();
    assert_eq!(args.len(), 2);
    assert_eq!(args[0], "-c");
    assert_eq!(args[1], ". ./export.sh;cd examples/get-started/blink;idf.py fullclean; idf.py build");
}

#[test]
fn package_steps() {
    let url = "https://dl.example.com/git.zip".to_string();
    let all = prepare_package(url.clone(), "git.zip".to_string(), "/tools/git".to_string(), false, false);
    assert_eq!(
        all,
        vec![
            PackageStep::Download { url: url.clone(), archive: "git.zip".to_string() },
            PackageStep::Unzip { archive: "git.zip".to_string(), output_directory: "/tools/git".to_string() },
        ]
    );
    let cached = prepare_package(url.clone(), "git.zip".to_string(), "/tools/git".to_string(), true, false);
    assert_eq!(
        cached,
        vec![PackageStep::Unzip { archive: "git.zip".to_string(), output_directory: "/tools/git".to_string() }]
    );
    assert!(prepare_package(url, "git.zip".to_string(), "/tools/git".to_string(), true, true).is_empty());
}
