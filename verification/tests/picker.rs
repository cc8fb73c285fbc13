use systemdfilegenerator::picker::{
    clean_path_input, expand_path, is_build_dir, is_build_dir_lowercase, resolve_binary_info,
};

#[test]
fn test_resolve_binary_info_target_release() {
    let path = "'/home/hylmi/Hylmi/Pemrograman_Berorientasi_Objek/Rust/api_siabsen/target/x86_64-unknown-linux-musl/release/api_siabsen'";
    let info = resolve_binary_info(path, None, false).unwrap();
    assert_eq!(info.app_name, "api_siabsen");
    assert_eq!(info.binary_name, "api_siabsen");
    assert_eq!(info.opt_dir, "/opt/api_siabsen");
    assert_eq!(info.opt_binary_path, "/opt/api_siabsen/api_siabsen");
}

#[test]
fn test_resolve_binary_info_single_file() {
    let info = resolve_binary_info("/my-bin", None, false).unwrap();
    assert_eq!(info.app_name, "my-bin");
    assert_eq!(info.binary_name, "my-bin");
    assert_eq!(info.opt_binary_path, "/opt/my-bin/my-bin");
}

#[test]
fn clean_strips_quotes_and_whitespace() {
    assert_eq!(clean_path_input("  '/a/b c'  "), "/a/b c");
    assert_eq!(clean_path_input("\"/x/y\""), "/x/y");
    assert_eq!(clean_path_input("' /x/y '"), "/x/y");
    assert_eq!(clean_path_input("'"), "'");
    assert_eq!(clean_path_input("'/x\""), "'/x\"");
    assert_eq!(clean_path_input("\t/opt/tool\n"), "/opt/tool");
    assert_eq!(clean_path_input("''"), "");
}

#[test]
fn expand_replaces_tilde_with_home() {
    assert_eq!(expand_path("~/proj/bin", Some("/home/me")), "/home/me/proj/bin");
    assert_eq!(expand_path("~/proj/bin", Some("/home/me/")), "/home/me/proj/bin");
    assert_eq!(expand_path("~", Some("/home/me")), "/home/me");
    assert_eq!(expand_path("~/", Some("/home/me")), "/home/me");
    assert_eq!(expand_path("~//etc/x", Some("/home/me")), "/etc/x");
    assert_eq!(expand_path("~/proj/bin", None), "~/proj/bin");
    assert_eq!(expand_path("~user/bin", Some("/home/me")), "~user/bin");
    assert_eq!(expand_path("'~/a'", Some("/h")), "/h/a");
}

#[test]
fn build_dirs_are_recognised_case_insensitively() {
    assert!(is_build_dir("target"));
    assert!(is_build_dir("TARGET"));
    assert!(is_build_dir("Release"));
    assert!(is_build_dir("x86_64-unknown-linux-gnu"));
    assert!(is_build_dir("aarch64-apple-darwin"));
    assert!(is_build_dir("my-musl-stuff"));
    assert!(is_build_dir(""));
    assert!(!is_build_dir("api_siabsen"));
    assert!(!is_build_dir("targets"));
    let lower: Vec<char> = "dist".chars().collect();
    assert!(is_build_dir_lowercase(&lower));
    let upper: Vec<char> = "DIST".chars().collect();
    assert!(!is_build_dir_lowercase(&upper));
}

#[test]
fn app_name_skips_uppercase_build_dirs() {
    let info = resolve_binary_info("/work/proj/TARGET/Release/tool", None, false).unwrap();
    assert_eq!(info.app_name, "proj");
    assert_eq!(info.binary_name, "tool");
    assert_eq!(info.opt_binary_path, "/opt/proj/tool");
}

#[test]
fn app_name_falls_back_to_binary_name() {
    let info = resolve_binary_info("target/release/server", None, false).unwrap();
    assert_eq!(info.app_name, "server");
    assert_eq!(info.opt_dir, "/opt/server");
    assert_eq!(info.source_path, "target/release/server");
}

#[test]
fn tilde_paths_use_home_directory() {
    let info = resolve_binary_info("~/Project/web/target/release/webd", Some("/home/u"), false).unwrap();
    assert_eq!(info.source_path, "/home/u/Project/web/target/release/webd");
    assert_eq!(info.app_name, "web");
    assert_eq!(info.opt_binary_path, "/opt/web/webd");
}

#[test]
fn path_components_follow_path_rules() {
    let info = resolve_binary_info("/srv//app/./bin/", None, false).unwrap();
    assert_eq!(info.binary_name, "bin");
    assert_eq!(info.app_name, "app");
    let info = resolve_binary_info("/a/b/../c", None, false).unwrap();
    assert_eq!(info.binary_name, "c");
    assert_eq!(info.app_name, "b");
}

#[test]
fn paths_without_a_file_name_resolve_to_nothing() {
    assert!(resolve_binary_info("", None, false).is_none());
    assert!(resolve_binary_info("   ", None, false).is_none());
    assert!(resolve_binary_info("''", None, false).is_none());
    assert!(resolve_binary_info("/", None, false).is_none());
    assert!(resolve_binary_info(".", None, false).is_none());
    assert!(resolve_binary_info("/a/..", None, false).is_none());
}

#[test]
fn missing_source_is_reported_as_absent() {
    let info = resolve_binary_info("/definitely/not/here/xyz-binary", None, false).unwrap();
    assert!(!info.exists);
}
