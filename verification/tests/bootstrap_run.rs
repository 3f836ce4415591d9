use terax::paths::{android_files_dir, proot_bin, rootfs_dir};
use terax::bootstrap::{
    boot_accepts_event, bootstrap_start, bootstrap_step, installed_markers, BootAction, BootEvent,
};

const BASE: &str = "/data/data/app.crynta.terax/files";

fn s(x: &str) -> String {
    x.to_string()
}

fn ok() -> BootEvent {
    BootEvent::Completed(Ok(()))
}

fn run(events: Vec<BootEvent>) -> Vec<BootAction> {
    let (mut state, action) = bootstrap_start();
    let mut actions = vec![action];
    for e in events {
        assert!(boot_accepts_event(&state, &e));
        let (st, a) = bootstrap_step(state, e);
        assert_eq!(st.base, BASE);
        state = st;
        actions.push(a);
    }
    actions
}

#[test]
fn markers_are_proot_and_shell() {
    assert_eq!(
        installed_markers(BASE),
        (
            s("/data/data/app.crynta.terax/files/proot"),
            s("/data/data/app.crynta.terax/files/rootfs/bin/sh")
        )
    );
}

#[test]
fn installed_runtime_is_skipped() {
    let actions = run(vec![BootEvent::Checked(true)]);
    assert_eq!(
        actions,
        vec![
            BootAction::CheckInstalled {
                proot: s("/data/data/app.crynta.terax/files/proot"),
                shell: s("/data/data/app.crynta.terax/files/rootfs/bin/sh"),
            },
            BootAction::Finish(Ok(s("already_bootstrapped"))),
        ]
    );
}

#[test]
fn fresh_bootstrap_does_every_step() {
    let actions = run(vec![
        BootEvent::Checked(false),
        ok(),
        BootEvent::Checked(false),
        BootEvent::AssetFound(Some(4096)),
        ok(),
        ok(),
        BootEvent::Checked(false),
        ok(),
        BootEvent::AssetFound(Some(4096)),
        ok(),
        BootEvent::TarExited { success: true, code: Some(0) },
        ok(),
        ok(),
        ok(),
        ok(),
        ok(),
        ok(),
        ok(),
        ok(),
    ]);
    let b = |p: &str| format!("{BASE}/{p}");
    let expected = vec![
            BootAction::CreateDirAll(s(BASE)),
            BootAction::CheckExists(b("proot")),
            BootAction::LoadAsset(s("assets/android/proot-aarch64")),
            BootAction::WriteAsset(b("proot")),
            BootAction::SetMode { path: b("proot"), mode: 0o755 },
            BootAction::CheckExists(b("rootfs/bin/sh")),
            BootAction::CreateDirAll(b("rootfs")),
            BootAction::LoadAsset(s("assets/android/alpine-rootfs.tar.gz")),
            BootAction::WriteAsset(b("alpine-tmp.tar.gz")),
            BootAction::RunTar(vec![s("xzf"), b("alpine-tmp.tar.gz"), s("-C"), b("rootfs")]),
            BootAction::RemoveFile(b("alpine-tmp.tar.gz")),
            BootAction::CreateDirAll(b("rootfs/etc")),
            BootAction::CreateFile(b("rootfs/etc/resolv.conf")),
            BootAction::WriteText(s("nameserver 8.8.8.8\n")),
            BootAction::WriteText(s("nameserver 1.1.1.1\n")),
            BootAction::CreateDirAll(b("rootfs/etc/profile.d")),
            BootAction::CreateFile(b("rootfs/etc/profile.d/terax.sh")),
            BootAction::WriteText(s(
                "export TERM=xterm-256color\nexport COLORTERM=truecolor\nexport TERAX_TERMINAL=1\nexport LANG=C.UTF-8\n"
            )),
            BootAction::Finish(Ok(s("bootstrapped"))),
    ];
    assert_eq!(&actions[1..], &expected[..]);
}

#[test]
fn present_parts_are_not_extracted_again() {
    let actions = run(vec![
        BootEvent::Checked(false),
        ok(),
        BootEvent::Checked(true),
        BootEvent::Checked(true),
    ]);
    assert_eq!(actions[3], BootAction::CheckExists(format!("{BASE}/rootfs/bin/sh")));
    assert_eq!(actions[4], BootAction::CreateDirAll(format!("{BASE}/rootfs/etc")));
}

#[test]
fn ignored_results_do_not_stop_bootstrap() {
    let actions = run(vec![
        BootEvent::Checked(false),
        ok(),
        BootEvent::Checked(true),
        BootEvent::Checked(true),
        BootEvent::Completed(Err(s("exists"))),
    ]);
    assert_eq!(actions[5], BootAction::CreateFile(format!("{BASE}/rootfs/etc/resolv.conf")));
}

#[test]
fn base_dir_failure() {
    let actions = run(vec![BootEvent::Checked(false), BootEvent::Completed(Err(s("EROFS")))]);
    assert_eq!(actions[2], BootAction::Finish(Err(s("create files dir: EROFS"))));
}

#[test]
fn missing_proot_asset() {
    let actions = run(vec![
        BootEvent::Checked(false),
        ok(),
        BootEvent::Checked(false),
        BootEvent::AssetFound(None),
    ]);
    assert_eq!(actions[4], BootAction::Finish(Err(s("proot-aarch64 not found in app assets"))));
}

#[test]
fn proot_write_and_chmod_failures() {
    let w = run(vec![
        BootEvent::Checked(false),
        ok(),
        BootEvent::Checked(false),
        BootEvent::AssetFound(Some(4096)),
        BootEvent::Completed(Err(s("disk full"))),
    ]);
    assert_eq!(w[5], BootAction::Finish(Err(s("write proot binary: disk full"))));
    let c = run(vec![
        BootEvent::Checked(false),
        ok(),
        BootEvent::Checked(false),
        BootEvent::AssetFound(Some(4096)),
        ok(),
        BootEvent::Completed(Err(s("EPERM"))),
    ]);
    assert_eq!(c[6], BootAction::Finish(Err(s("chmod proot: EPERM"))));
}

#[test]
fn rootfs_failures() {
    let prefix = vec![BootEvent::Checked(false), ok(), BootEvent::Checked(true), BootEvent::Checked(false)];
    let mut e = prefix;
    e.push(BootEvent::Completed(Err(s("EACCES"))));
    assert_eq!(run(e)[5], BootAction::Finish(Err(s("create rootfs dir: EACCES"))));

    let e = vec![
        BootEvent::Checked(false),
        ok(),
        BootEvent::Checked(true),
        BootEvent::Checked(false),
        ok(),
        BootEvent::AssetFound(None),
    ];
    assert_eq!(
        run(e)[6],
        BootAction::Finish(Err(s("alpine-rootfs.tar.gz not found in app assets")))
    );

    let e = vec![
        BootEvent::Checked(false),
        ok(),
        BootEvent::Checked(true),
        BootEvent::Checked(false),
        ok(),
        BootEvent::AssetFound(Some(4096)),
        BootEvent::Completed(Err(s("ENOSPC"))),
    ];
    assert_eq!(run(e)[7], BootAction::Finish(Err(s("write intermediate tarball: ENOSPC"))));
}

fn up_to_tar() -> Vec<BootEvent> {
    vec![
        BootEvent::Checked(false),
        ok(),
        BootEvent::Checked(true),
        BootEvent::Checked(false),
        ok(),
        BootEvent::AssetFound(Some(4096)),
        ok(),
    ]
}

#[test]
fn tar_not_started() {
    let mut e = up_to_tar();
    e.push(BootEvent::TarNotStarted(s("No such file or directory (os error 2)")));
    assert_eq!(
        run(e)[8],
        BootAction::Finish(Err(s("spawn tar: No such file or directory (os error 2)")))
    );
}

#[test]
fn tar_failure_removes_tarball_then_reports_code() {
    let mut e = up_to_tar();
    e.push(BootEvent::TarExited { success: false, code: Some(2) });
    e.push(ok());
    let a = run(e);
    assert_eq!(a[8], BootAction::RemoveFile(format!("{BASE}/alpine-tmp.tar.gz")));
    assert_eq!(a[9], BootAction::Finish(Err(s("tar extraction failed: Some(2)"))));

    let mut e = up_to_tar();
    e.push(BootEvent::TarExited { success: false, code: None });
    e.push(BootEvent::Completed(Err(s("gone"))));
    assert_eq!(run(e)[9], BootAction::Finish(Err(s("tar extraction failed: None"))));
}

fn up_to_resolv() -> Vec<BootEvent> {
    vec![BootEvent::Checked(false), ok(), BootEvent::Checked(true), BootEvent::Checked(true), ok()]
}

#[test]
fn resolv_conf_failures() {
    let mut e = up_to_resolv();
    e.push(BootEvent::Completed(Err(s("EROFS"))));
    assert_eq!(run(e)[6], BootAction::Finish(Err(s("create resolv.conf: EROFS"))));

    let mut e = up_to_resolv();
    e.push(ok());
    e.push(BootEvent::Completed(Err(s("EIO"))));
    assert_eq!(run(e)[7], BootAction::Finish(Err(s("EIO"))));
}

#[test]
fn profile_failures() {
    let mut e = up_to_resolv();
    e.extend([ok(), ok(), ok(), ok(), BootEvent::Completed(Err(s("EDQUOT")))]);
    assert_eq!(run(e)[10], BootAction::Finish(Err(s("create profile: EDQUOT"))));

    let mut e = up_to_resolv();
    e.extend([ok(), ok(), ok(), ok(), ok(), BootEvent::Completed(Err(s("EIO")))]);
    assert_eq!(run(e)[11], BootAction::Finish(Err(s("EIO"))));
}

#[test]
fn bootstrap_fills_the_files_directory() {
    let (state, _) = bootstrap_start();
    assert_eq!(state.base, android_files_dir());
    assert_eq!(state.base, BASE);
}

#[test]
fn bootstrap_installs_what_sessions_launch() {
    let actions = run(vec![
        BootEvent::Checked(false),
        ok(),
        BootEvent::Checked(false),
        BootEvent::AssetFound(Some(1)),
        ok(),
        ok(),
        BootEvent::Checked(false),
    ]);
    assert_eq!(actions[4], BootAction::WriteAsset(proot_bin()));
    assert_eq!(actions[7], BootAction::CreateDirAll(rootfs_dir()));
}

#[test]
fn empty_proot_asset_is_refused() {
    let actions = run(vec![
        BootEvent::Checked(false),
        ok(),
        BootEvent::Checked(false),
        BootEvent::AssetFound(Some(0)),
    ]);
    assert_eq!(actions.len(), 5);
    assert_eq!(
        actions[4],
        BootAction::Finish(Err(s(
            "proot-aarch64 in app assets is empty: replace the placeholder with a real proot binary"
        )))
    );
}

#[test]
fn empty_tarball_asset_is_still_written() {
    let actions = run(vec![
        BootEvent::Checked(false),
        ok(),
        BootEvent::Checked(true),
        BootEvent::Checked(false),
        ok(),
        BootEvent::AssetFound(Some(0)),
    ]);
    assert_eq!(actions[6], BootAction::WriteAsset(format!("{BASE}/alpine-tmp.tar.gz")));
}
