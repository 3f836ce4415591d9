use terax::paths::{android_files_dir, join, proot_bin, rootfs_dir};
use terax::settings::{settings_tab, settings_url};
use terax::text::{decimal_i32, option_i32_text, prefixed};

#[test]
fn files_dir_is_app_private_dir() {
    assert_eq!(android_files_dir(), "/data/data/app.crynta.terax/files");
}

#[test]
fn proot_and_rootfs_live_in_files_dir() {
    assert_eq!(proot_bin(), "/data/data/app.crynta.terax/files/proot");
    assert_eq!(rootfs_dir(), "/data/data/app.crynta.terax/files/rootfs");
}

#[test]
fn join_adds_one_separator() {
    assert_eq!(join("/a/b", "c"), "/a/b/c");
    assert_eq!(join("/a/b/", "c"), "/a/b/c");
    assert_eq!(join("", "c"), "c");
    assert_eq!(join("/a", "rootfs/bin/sh"), "/a/rootfs/bin/sh");
    assert_eq!(join("/a", ""), "/a/");
}

#[test]
fn join_with_absolute_name_replaces_base() {
    assert_eq!(join("/a/b", "/etc"), "/etc");
}

#[test]
fn join_agrees_with_pathbuf() {
    for (base, name) in [("/x/y", "z"), ("/x/y/", "z/w"), ("", "q"), ("/x", "/abs"), ("rel", "n")] {
        let expected = std::path::Path::new(base).join(name);
        assert_eq!(join(base, name), expected.to_str().unwrap());
    }
}

#[test]
fn prefixed_concatenates() {
    assert_eq!(prefixed("spawn tar: ", "No such file"), "spawn tar: No such file");
}

#[test]
fn decimal_matches_display() {
    for v in [0, 7, 42, 100, -1, -250, i32::MAX, i32::MIN] {
        assert_eq!(decimal_i32(v), v.to_string());
    }
}

#[test]
fn option_text_matches_debug() {
    assert_eq!(option_i32_text(Some(2)), "Some(2)");
    assert_eq!(option_i32_text(Some(-9)), format!("{:?}", Some(-9)));
    assert_eq!(option_i32_text(None), "None");
}

#[test]
fn settings_url_carries_tab() {
    assert_eq!(settings_url(Some("models")), "settings.html?tab=models");
    assert_eq!(settings_url(Some("")), "settings.html");
    assert_eq!(settings_url(None), "settings.html");
}

#[test]
fn settings_tab_ignores_empty() {
    assert_eq!(settings_tab(Some("keys")), Some("keys".to_string()));
    assert_eq!(settings_tab(Some("")), None);
    assert_eq!(settings_tab(None), None);
}
