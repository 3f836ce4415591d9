//! The first-run bootstrap of the Android runtime: the proot binary and the
//! Alpine rootfs are extracted from the app's assets into the app's files
//! directory, and the rootfs gets a `resolv.conf` and a profile script.
//! Once both are in place, later runs skip the work. The directory filled
//! is the app's files directory, where terminal sessions look for proot and
//! the rootfs; an empty proot asset (the placeholder shipped in source
//! builds) is refused rather than installed.
//!
//! The file-system work is done by the caller. This module decides, from
//! the outcome of each operation, which operation comes next and what the
//! bootstrap reports in the end.
use vstd::prelude::*;

use crate::paths::{
    android_files_dir, files_dir_path, join, proot_path, rootfs_path, spec_join,
};
use crate::text::{option_i32_debug, option_i32_text, prefixed};

verus! {

// ── Layout ──────────────────────────────────────────────────────────────────
/// Where the proot binary is installed.
pub open spec fn proot_dest(base: Seq<char>) -> Seq<char> {
    spec_join(base, "proot"@)
}

/// Where the rootfs is extracted.
pub open spec fn rootfs_dest(base: Seq<char>) -> Seq<char> {
    spec_join(base, "rootfs"@)
}

/// The rootfs's shell, whose presence shows that the rootfs was extracted.
pub open spec fn shell_in_rootfs(base: Seq<char>) -> Seq<char> {
    spec_join(rootfs_dest(base), "bin/sh"@)
}

/// The shell as the installation check names it.
pub open spec fn shell_marker(base: Seq<char>) -> Seq<char> {
    spec_join(base, "rootfs/bin/sh"@)
}

/// Where the tarball is written before it is extracted.
pub open spec fn tarball_tmp(base: Seq<char>) -> Seq<char> {
    spec_join(base, "alpine-tmp.tar.gz"@)
}

/// The rootfs's `etc` directory.
pub open spec fn etc_dir(base: Seq<char>) -> Seq<char> {
    spec_join(rootfs_dest(base), "etc"@)
}

/// The rootfs's resolver configuration.
pub open spec fn resolv_conf(base: Seq<char>) -> Seq<char> {
    spec_join(rootfs_dest(base), "etc/resolv.conf"@)
}

/// The rootfs's directory of profile scripts.
pub open spec fn profile_dir(base: Seq<char>) -> Seq<char> {
    spec_join(rootfs_dest(base), "etc/profile.d"@)
}

/// The profile script written into the rootfs.
pub open spec fn profile_script(base: Seq<char>) -> Seq<char> {
    spec_join(profile_dir(base), "terax.sh"@)
}

/// The asset holding the proot binary.
pub open spec fn proot_asset() -> Seq<char> {
    "assets/android/proot-aarch64"@
}

/// The asset holding the Alpine rootfs.
pub open spec fn tarball_asset() -> Seq<char> {
    "assets/android/alpine-rootfs.tar.gz"@
}

/// The error when the proot asset is an empty placeholder: a zero-byte
/// proot is never installed.
pub open spec fn empty_proot_msg() -> Seq<char> {
    "proot-aarch64 in app assets is empty: replace the placeholder with a real proot binary"@
}

/// The mode of the installed proot binary: `rwxr-xr-x`.
pub open spec fn proot_mode() -> u32 {
    0o755
}

/// The first line of `resolv.conf`.
pub open spec fn nameserver1_line() -> Seq<char> {
    "nameserver 8.8.8.8\n"@
}

/// The second line of `resolv.conf`.
pub open spec fn nameserver2_line() -> Seq<char> {
    "nameserver 1.1.1.1\n"@
}

/// The content of the profile script.
pub open spec fn profile_text() -> Seq<char> {
    "export TERM=xterm-256color\nexport COLORTERM=truecolor\nexport TERAX_TERMINAL=1\nexport LANG=C.UTF-8\n"@
}

/// The arguments given to `tar` to unpack the tarball into the rootfs.
pub open spec fn tar_args(base: Seq<char>) -> Seq<Seq<char>> {
    seq!["xzf"@, tarball_tmp(base), "-C"@, rootfs_dest(base)]
}

/// The two paths whose presence shows that the bootstrap is complete: the
/// proot binary and the rootfs's shell.
pub fn installed_markers(base: &str) -> (r: (String, String))
    ensures
        r.0@ == proot_dest(base@),
        r.1@ == shell_marker(base@),
{
    (join(base, "proot"), join(base, "rootfs/bin/sh"))
}

// ── The machine ─────────────────────────────────────────────────────────────
/// Where a bootstrap stands.
#[derive(PartialEq, Eq, Structural, Clone, Copy, Debug)]
pub enum BootStage {
    CheckingInstalled,
    CreatingBase,
    CheckingProot,
    LoadingProot,
    WritingProot,
    ChmoddingProot,
    CheckingShell,
    CreatingRootfs,
    LoadingTarball,
    WritingTarball,
    Extracting,
    /// The tarball was unpacked by `tar`, which exited as given; the
    /// temporary tarball is being removed.
    RemovingTarball { success: bool, code: Option<i32> },
    CreatingEtc,
    CreatingResolv,
    WritingNameserver1,
    WritingNameserver2,
    CreatingProfileDir,
    CreatingProfile,
    WritingProfile,
    Done,
}

/// A bootstrap in progress, for the files directory `base`.
pub struct BootState {
    pub base: String,
    pub stage: BootStage,
}

/// The next operation.
#[derive(Debug, PartialEq, Eq)]
pub enum BootAction {
    /// Whether both paths exist.
    CheckInstalled { proot: String, shell: String },
    /// Create the directory and its parents.
    CreateDirAll(String),
    /// Whether the path exists.
    CheckExists(String),
    /// Look the asset up in the app's assets and keep its bytes.
    LoadAsset(String),
    /// Write the bytes of the asset loaded last to the path.
    WriteAsset(String),
    /// Set the permission bits of the path.
    SetMode { path: String, mode: u32 },
    /// Run `tar` with these arguments and wait for it.
    RunTar(Vec<String>),
    /// Remove the file.
    RemoveFile(String),
    /// Create (or truncate) the file and keep it open.
    CreateFile(String),
    /// Write the text to the file opened last.
    WriteText(String),
    /// The bootstrap is over: its report, or the error.
    Finish(Result<String, String>),
}

/// The outcome of the operation that was made.
#[derive(Debug, PartialEq, Eq)]
pub enum BootEvent {
    /// The answer of a presence check.
    Checked(bool),
    /// A file-system operation succeeded, or failed with this error text.
    Completed(Result<(), String>),
    /// The asset's length in bytes when it was found, `None` when it was not.
    AssetFound(Option<usize>),
    /// `tar` could not be started; the text of the error.
    TarNotStarted(String),
    /// `tar` exited: whether it succeeded, and its exit code if it had one.
    TarExited { success: bool, code: Option<i32> },
}

/// `BootAction` with texts in place of strings.
pub enum BootActionView {
    CheckInstalled { proot: Seq<char>, shell: Seq<char> },
    CreateDirAll(Seq<char>),
    CheckExists(Seq<char>),
    LoadAsset(Seq<char>),
    WriteAsset(Seq<char>),
    SetMode { path: Seq<char>, mode: u32 },
    RunTar(Seq<Seq<char>>),
    RemoveFile(Seq<char>),
    CreateFile(Seq<char>),
    WriteText(Seq<char>),
    Finish(Result<Seq<char>, Seq<char>>),
}

/// `BootEvent` with texts in place of strings.
pub enum BootEventView {
    Checked(bool),
    Completed(Result<(), Seq<char>>),
    AssetFound(Option<usize>),
    TarNotStarted(Seq<char>),
    TarExited { success: bool, code: Option<i32> },
}

impl View for BootAction {
    type V = BootActionView;

    open spec fn view(&self) -> BootActionView {
        match self {
            BootAction::CheckInstalled { proot, shell } => BootActionView::CheckInstalled {
                proot: proot@,
                shell: shell@,
            },
            BootAction::CreateDirAll(p) => BootActionView::CreateDirAll(p@),
            BootAction::CheckExists(p) => BootActionView::CheckExists(p@),
            BootAction::LoadAsset(a) => BootActionView::LoadAsset(a@),
            BootAction::WriteAsset(p) => BootActionView::WriteAsset(p@),
            BootAction::SetMode { path, mode } => BootActionView::SetMode {
                path: path@,
                mode: *mode,
            },
            BootAction::RunTar(args) => BootActionView::RunTar(
                args@.map_values(|a: String| a@),
            ),
            BootAction::RemoveFile(p) => BootActionView::RemoveFile(p@),
            BootAction::CreateFile(p) => BootActionView::CreateFile(p@),
            BootAction::WriteText(t) => BootActionView::WriteText(t@),
            BootAction::Finish(r) => BootActionView::Finish(
                match r {
                    Ok(m) => Ok(m@),
                    Err(e) => Err(e@),
                },
            ),
        }
    }
}

impl View for BootEvent {
    type V = BootEventView;

    open spec fn view(&self) -> BootEventView {
        match self {
            BootEvent::Checked(b) => BootEventView::Checked(*b),
            BootEvent::Completed(r) => BootEventView::Completed(
                match r {
                    Ok(()) => Ok(()),
                    Err(e) => Err(e@),
                },
            ),
            BootEvent::AssetFound(b) => BootEventView::AssetFound(*b),
            BootEvent::TarNotStarted(e) => BootEventView::TarNotStarted(e@),
            BootEvent::TarExited { success, code } => BootEventView::TarExited {
                success: *success,
                code: *code,
            },
        }
    }
}

/// Whether `event` is an outcome of the operation that `stage` waits for.
pub open spec fn boot_accepts(stage: BootStage, event: BootEventView) -> bool {
    match stage {
        BootStage::CheckingInstalled | BootStage::CheckingProot | BootStage::CheckingShell => {
            event is Checked
        },
        BootStage::LoadingProot | BootStage::LoadingTarball => event is AssetFound,
        BootStage::Extracting => event is TarNotStarted || event is TarExited,
        BootStage::Done => false,
        _ => event is Completed,
    }
}

/// What comes after the rootfs is in place: the `etc` directory is made.
pub open spec fn after_rootfs(base: Seq<char>) -> (BootStage, BootActionView) {
    (BootStage::CreatingEtc, BootActionView::CreateDirAll(etc_dir(base)))
}

/// What comes after the proot binary is in place: the rootfs's shell is
/// looked for.
pub open spec fn after_proot(base: Seq<char>) -> (BootStage, BootActionView) {
    (BootStage::CheckingShell, BootActionView::CheckExists(shell_in_rootfs(base)))
}

/// The end of the bootstrap with an error.
pub open spec fn fail(msg: Seq<char>) -> (BootStage, BootActionView) {
    (BootStage::Done, BootActionView::Finish(Err(msg)))
}

/// The next stage and operation after `event`, for a `stage` that accepts
/// it, in the files directory `base`.
pub open spec fn boot_next(base: Seq<char>, stage: BootStage, event: BootEventView) -> (
    BootStage,
    BootActionView,
) {
    match (stage, event) {
        (BootStage::CheckingInstalled, BootEventView::Checked(installed)) => {
            if installed {
                (BootStage::Done, BootActionView::Finish(Ok("already_bootstrapped"@)))
            } else {
                (BootStage::CreatingBase, BootActionView::CreateDirAll(base))
            }
        },
        (BootStage::CreatingBase, BootEventView::Completed(r)) => {
            match r {
                Err(e) => fail("create files dir: "@ + e),
                Ok(()) => (BootStage::CheckingProot, BootActionView::CheckExists(proot_dest(base))),
            }
        },
        (BootStage::CheckingProot, BootEventView::Checked(present)) => {
            if present {
                after_proot(base)
            } else {
                (BootStage::LoadingProot, BootActionView::LoadAsset(proot_asset()))
            }
        },
        (BootStage::LoadingProot, BootEventView::AssetFound(found)) => {
            match found {
                None => fail("proot-aarch64 not found in app assets"@),
                Some(len) => if len == 0 {
                    fail(empty_proot_msg())
                } else {
                    (BootStage::WritingProot, BootActionView::WriteAsset(proot_dest(base)))
                },
            }
        },
        (BootStage::WritingProot, BootEventView::Completed(r)) => {
            match r {
                Err(e) => fail("write proot binary: "@ + e),
                Ok(()) => (
                    BootStage::ChmoddingProot,
                    BootActionView::SetMode { path: proot_dest(base), mode: proot_mode() },
                ),
            }
        },
        (BootStage::ChmoddingProot, BootEventView::Completed(r)) => {
            match r {
                Err(e) => fail("chmod proot: "@ + e),
                Ok(()) => after_proot(base),
            }
        },
        (BootStage::CheckingShell, BootEventView::Checked(present)) => {
            if present {
                after_rootfs(base)
            } else {
                (BootStage::CreatingRootfs, BootActionView::CreateDirAll(rootfs_dest(base)))
            }
        },
        (BootStage::CreatingRootfs, BootEventView::Completed(r)) => {
            match r {
                Err(e) => fail("create rootfs dir: "@ + e),
                Ok(()) => (BootStage::LoadingTarball, BootActionView::LoadAsset(tarball_asset())),
            }
        },
        (BootStage::LoadingTarball, BootEventView::AssetFound(found)) => {
            if found is Some {
                (BootStage::WritingTarball, BootActionView::WriteAsset(tarball_tmp(base)))
            } else {
                fail("alpine-rootfs.tar.gz not found in app assets"@)
            }
        },
        (BootStage::WritingTarball, BootEventView::Completed(r)) => {
            match r {
                Err(e) => fail("write intermediate tarball: "@ + e),
                Ok(()) => (BootStage::Extracting, BootActionView::RunTar(tar_args(base))),
            }
        },
        (BootStage::Extracting, BootEventView::TarNotStarted(e)) => fail("spawn tar: "@ + e),
        (BootStage::Extracting, BootEventView::TarExited { success, code }) => {
            (
                BootStage::RemovingTarball { success, code },
                BootActionView::RemoveFile(tarball_tmp(base)),
            )
        },
        (BootStage::RemovingTarball { success, code }, BootEventView::Completed(_)) => {
            if success {
                after_rootfs(base)
            } else {
                fail("tar extraction failed: "@ + option_i32_debug(code))
            }
        },
        (BootStage::CreatingEtc, BootEventView::Completed(_)) => {
            (BootStage::CreatingResolv, BootActionView::CreateFile(resolv_conf(base)))
        },
        (BootStage::CreatingResolv, BootEventView::Completed(r)) => {
            match r {
                Err(e) => fail("create resolv.conf: "@ + e),
                Ok(()) => (BootStage::WritingNameserver1, BootActionView::WriteText(nameserver1_line())),
            }
        },
        (BootStage::WritingNameserver1, BootEventView::Completed(r)) => {
            match r {
                Err(e) => fail(e),
                Ok(()) => (BootStage::WritingNameserver2, BootActionView::WriteText(nameserver2_line())),
            }
        },
        (BootStage::WritingNameserver2, BootEventView::Completed(r)) => {
            match r {
                Err(e) => fail(e),
                Ok(()) => (BootStage::CreatingProfileDir, BootActionView::CreateDirAll(profile_dir(base))),
            }
        },
        (BootStage::CreatingProfileDir, BootEventView::Completed(_)) => {
            (BootStage::CreatingProfile, BootActionView::CreateFile(profile_script(base)))
        },
        (BootStage::CreatingProfile, BootEventView::Completed(r)) => {
            match r {
                Err(e) => fail("create profile: "@ + e),
                Ok(()) => (BootStage::WritingProfile, BootActionView::WriteText(profile_text())),
            }
        },
        (BootStage::WritingProfile, BootEventView::Completed(r)) => {
            match r {
                Err(e) => fail(e),
                Ok(()) => (BootStage::Done, BootActionView::Finish(Ok("bootstrapped"@))),
            }
        },
        // Not reached for an accepted event.
        _ => (BootStage::Done, BootActionView::CheckExists(base)),
    }
}

/// The first state and operation of a bootstrap: it fills the app's files
/// directory, the one in which sessions look for proot and the rootfs, and
/// begins by checking whether it is installed already.
pub fn bootstrap_start() -> (r: (BootState, BootAction))
    ensures
        r.0.base@ == files_dir_path(),
        r.0.stage == BootStage::CheckingInstalled,
        r.1@ == (BootActionView::CheckInstalled {
            proot: proot_dest(files_dir_path()),
            shell: shell_marker(files_dir_path()),
        }),
{
    let base = android_files_dir();
    let (proot, shell) = installed_markers(base.as_str());
    (BootState { base, stage: BootStage::CheckingInstalled }, BootAction::CheckInstalled { proot, shell })
}

/// Whether `event` is an outcome of the operation that `state` waits for.
pub fn boot_accepts_event(state: &BootState, event: &BootEvent) -> (r: bool)
    ensures
        r == boot_accepts(state.stage, event@),
{
    match state.stage {
        BootStage::CheckingInstalled | BootStage::CheckingProot | BootStage::CheckingShell => {
            matches!(event, BootEvent::Checked(_))
        },
        BootStage::LoadingProot | BootStage::LoadingTarball => matches!(event, BootEvent::AssetFound(_)),
        BootStage::Extracting => matches!(
            event,
            BootEvent::TarNotStarted(_) | BootEvent::TarExited { .. }
        ),
        BootStage::Done => false,
        _ => matches!(event, BootEvent::Completed(_)),
    }
}

fn finish_err(msg: String) -> (r: (BootStage, BootAction))
    ensures
        (r.0, r.1@) == fail(msg@),
{
    (BootStage::Done, BootAction::Finish(Err(msg)))
}

fn next_after_rootfs(base: &str) -> (r: (BootStage, BootAction))
    ensures
        (r.0, r.1@) == after_rootfs(base@),
{
    let rootfs = join(base, "rootfs");
    (BootStage::CreatingEtc, BootAction::CreateDirAll(join(rootfs.as_str(), "etc")))
}

fn next_after_proot(base: &str) -> (r: (BootStage, BootAction))
    ensures
        (r.0, r.1@) == after_proot(base@),
{
    let rootfs = join(base, "rootfs");
    (BootStage::CheckingShell, BootAction::CheckExists(join(rootfs.as_str(), "bin/sh")))
}

fn tar_arguments(base: &str) -> (r: Vec<String>)
    ensures
        r@.map_values(|a: String| a@) == tar_args(base@),
{
    let mut r: Vec<String> = Vec::new();
    r.push("xzf".to_owned());
    r.push(join(base, "alpine-tmp.tar.gz"));
    r.push("-C".to_owned());
    r.push(join(base, "rootfs"));
    assert(r@.map_values(|a: String| a@) =~= tar_args(base@));
    r
}

/// Decides the next stage and operation from the outcome of the last one.
pub fn bootstrap_step(state: BootState, event: BootEvent) -> (r: (BootState, BootAction))
    requires
        boot_accepts(state.stage, event@),
    ensures
        r.0.base@ == state.base@,
        (r.0.stage, r.1@) == boot_next(state.base@, state.stage, event@),
{
    let BootState { base, stage } = state;
    let b = base.as_str();
    let (next, action) = match (stage, event) {
        (BootStage::CheckingInstalled, BootEvent::Checked(installed)) => {
            if installed {
                (BootStage::Done, BootAction::Finish(Ok("already_bootstrapped".to_owned())))
            } else {
                (BootStage::CreatingBase, BootAction::CreateDirAll(b.to_owned()))
            }
        },
        (BootStage::CreatingBase, BootEvent::Completed(r)) => {
            match r {
                Err(e) => finish_err(prefixed("create files dir: ", e.as_str())),
                Ok(()) => (BootStage::CheckingProot, BootAction::CheckExists(join(b, "proot"))),
            }
        },
        (BootStage::CheckingProot, BootEvent::Checked(present)) => {
            if present {
                next_after_proot(b)
            } else {
                (
                    BootStage::LoadingProot,
                    BootAction::LoadAsset("assets/android/proot-aarch64".to_owned()),
                )
            }
        },
        (BootStage::LoadingProot, BootEvent::AssetFound(found)) => {
            match found {
                None => finish_err("proot-aarch64 not found in app assets".to_owned()),
                Some(len) => {
                    if len == 0 {
                        finish_err(
                            "proot-aarch64 in app assets is empty: replace the placeholder with a real proot binary".to_owned(),
                        )
                    } else {
                        (BootStage::WritingProot, BootAction::WriteAsset(join(b, "proot")))
                    }
                },
            }
        },
        (BootStage::WritingProot, BootEvent::Completed(r)) => {
            match r {
                Err(e) => finish_err(prefixed("write proot binary: ", e.as_str())),
                Ok(()) => (
                    BootStage::ChmoddingProot,
                    BootAction::SetMode { path: join(b, "proot"), mode: 0o755 },
                ),
            }
        },
        (BootStage::ChmoddingProot, BootEvent::Completed(r)) => {
            match r {
                Err(e) => finish_err(prefixed("chmod proot: ", e.as_str())),
                Ok(()) => next_after_proot(b),
            }
        },
        (BootStage::CheckingShell, BootEvent::Checked(present)) => {
            if present {
                next_after_rootfs(b)
            } else {
                (BootStage::CreatingRootfs, BootAction::CreateDirAll(join(b, "rootfs")))
            }
        },
        (BootStage::CreatingRootfs, BootEvent::Completed(r)) => {
            match r {
                Err(e) => finish_err(prefixed("create rootfs dir: ", e.as_str())),
                Ok(()) => (
                    BootStage::LoadingTarball,
                    BootAction::LoadAsset("assets/android/alpine-rootfs.tar.gz".to_owned()),
                ),
            }
        },
        (BootStage::LoadingTarball, BootEvent::AssetFound(found)) => {
            if found.is_some() {
                (BootStage::WritingTarball, BootAction::WriteAsset(join(b, "alpine-tmp.tar.gz")))
            } else {
                finish_err("alpine-rootfs.tar.gz not found in app assets".to_owned())
            }
        },
        (BootStage::WritingTarball, BootEvent::Completed(r)) => {
            match r {
                Err(e) => finish_err(prefixed("write intermediate tarball: ", e.as_str())),
                Ok(()) => (BootStage::Extracting, BootAction::RunTar(tar_arguments(b))),
            }
        },
        (BootStage::Extracting, BootEvent::TarNotStarted(e)) => {
            finish_err(prefixed("spawn tar: ", e.as_str()))
        },
        (BootStage::Extracting, BootEvent::TarExited { success, code }) => {
            (
                BootStage::RemovingTarball { success, code },
                BootAction::RemoveFile(join(b, "alpine-tmp.tar.gz")),
            )
        },
        (BootStage::RemovingTarball { success, code }, BootEvent::Completed(_)) => {
            if success {
                next_after_rootfs(b)
            } else {
                finish_err(prefixed("tar extraction failed: ", option_i32_text(code).as_str()))
            }
        },
        (BootStage::CreatingEtc, BootEvent::Completed(_)) => {
            let rootfs = join(b, "rootfs");
            (
                BootStage::CreatingResolv,
                BootAction::CreateFile(join(rootfs.as_str(), "etc/resolv.conf")),
            )
        },
        (BootStage::CreatingResolv, BootEvent::Completed(r)) => {
            match r {
                Err(e) => finish_err(prefixed("create resolv.conf: ", e.as_str())),
                Ok(()) => (
                    BootStage::WritingNameserver1,
                    BootAction::WriteText("nameserver 8.8.8.8\n".to_owned()),
                ),
            }
        },
        (BootStage::WritingNameserver1, BootEvent::Completed(r)) => {
            match r {
                Err(e) => finish_err(e),
                Ok(()) => (
                    BootStage::WritingNameserver2,
                    BootAction::WriteText("nameserver 1.1.1.1\n".to_owned()),
                ),
            }
        },
        (BootStage::WritingNameserver2, BootEvent::Completed(r)) => {
            match r {
                Err(e) => finish_err(e),
                Ok(()) => {
                    let rootfs = join(b, "rootfs");
                    (
                        BootStage::CreatingProfileDir,
                        BootAction::CreateDirAll(join(rootfs.as_str(), "etc/profile.d")),
                    )
                },
            }
        },
        (BootStage::CreatingProfileDir, BootEvent::Completed(_)) => {
            let rootfs = join(b, "rootfs");
            let dir = join(rootfs.as_str(), "etc/profile.d");
            (BootStage::CreatingProfile, BootAction::CreateFile(join(dir.as_str(), "terax.sh")))
        },
        (BootStage::CreatingProfile, BootEvent::Completed(r)) => {
            match r {
                Err(e) => finish_err(prefixed("create profile: ", e.as_str())),
                Ok(()) => (
                    BootStage::WritingProfile,
                    BootAction::WriteText(
                        "export TERM=xterm-256color\nexport COLORTERM=truecolor\nexport TERAX_TERMINAL=1\nexport LANG=C.UTF-8\n".to_owned(),
                    ),
                ),
            }
        },
        (BootStage::WritingProfile, BootEvent::Completed(r)) => {
            match r {
                Err(e) => finish_err(e),
                Ok(()) => (BootStage::Done, BootAction::Finish(Ok("bootstrapped".to_owned()))),
            }
        },
        // Not reached: the event is accepted.
        _ => (BootStage::Done, BootAction::CheckExists(b.to_owned())),
    };
    (BootState { base, stage: next }, action)
}

// ── Laws of the bootstrap ──────────────────────────────────────────────────
/// How far a stage is from the end of the bootstrap.
pub open spec fn boot_rank(stage: BootStage) -> nat {
    match stage {
        BootStage::CheckingInstalled => 20,
        BootStage::CreatingBase => 19,
        BootStage::CheckingProot => 18,
        BootStage::LoadingProot => 17,
        BootStage::WritingProot => 16,
        BootStage::ChmoddingProot => 15,
        BootStage::CheckingShell => 14,
        BootStage::CreatingRootfs => 13,
        BootStage::LoadingTarball => 12,
        BootStage::WritingTarball => 11,
        BootStage::Extracting => 10,
        BootStage::RemovingTarball { .. } => 9,
        BootStage::CreatingEtc => 8,
        BootStage::CreatingResolv => 7,
        BootStage::WritingNameserver1 => 6,
        BootStage::WritingNameserver2 => 5,
        BootStage::CreatingProfileDir => 4,
        BootStage::CreatingProfile => 3,
        BootStage::WritingProfile => 2,
        BootStage::Done => 0,
    }
}

/// Every step moves closer to the end, so a bootstrap always ends; and it
/// has ended exactly when the operation asked for is `Finish`.
pub proof fn lemma_boot_step_progresses(base: Seq<char>, stage: BootStage, event: BootEventView)
    requires
        boot_accepts(stage, event),
    ensures
        boot_rank(boot_next(base, stage, event).0) < boot_rank(stage),
        (boot_next(base, stage, event).0 is Done) <==> (boot_next(base, stage, event).1 is Finish),
{
}

/// Once the bootstrap is complete, a later run does no work: it reports
/// `already_bootstrapped` right after the installation check.
pub proof fn lemma_installed_is_skipped(base: Seq<char>)
    ensures
        boot_next(base, BootStage::CheckingInstalled, BootEventView::Checked(true)) == (
            BootStage::Done,
            BootActionView::Finish(Ok("already_bootstrapped"@)),
        ),
{
}

/// A bootstrap reports success only in two ways: `already_bootstrapped`
/// straight after the installation check, or `bootstrapped` once the
/// profile script was written.
pub proof fn lemma_success_only_when_complete(
    base: Seq<char>,
    stage: BootStage,
    event: BootEventView,
    report: Seq<char>,
)
    requires
        boot_accepts(stage, event),
        boot_next(base, stage, event).1 == BootActionView::Finish(Ok(report)),
    ensures
        (stage == BootStage::CheckingInstalled && event == BootEventView::Checked(true)
            && report == "already_bootstrapped"@) || (stage == BootStage::WritingProfile && (
        event matches BootEventView::Completed(Ok(_))) && report == "bootstrapped"@),
{
    match (stage, event) {
        (BootStage::WritingProfile, BootEventView::Completed(r)) => {
            assert(r is Ok);
        },
        _ => {},
    }
}

/// Once `tar` has run, the temporary tarball is removed, whether the
/// extraction succeeded or not.
pub proof fn lemma_tarball_removed_after_tar(base: Seq<char>, success: bool, code: Option<i32>)
    ensures
        boot_next(base, BootStage::Extracting, BootEventView::TarExited { success, code }).1
            == BootActionView::RemoveFile(tarball_tmp(base)),
{
}

/// The installation check looks at the very shell that the extraction
/// produces.
pub proof fn lemma_marker_is_extracted_shell(base: Seq<char>)
    ensures
        shell_marker(base) == shell_in_rootfs(base),
{
    reveal_strlit("rootfs");
    reveal_strlit("bin/sh");
    reveal_strlit("rootfs/bin/sh");
    assert(seq!['r', 'o', 'o', 't', 'f', 's'] + seq!['/'] + seq!['b', 'i', 'n', '/', 's', 'h']
        =~= seq!['r', 'o', 'o', 't', 'f', 's', '/', 'b', 'i', 'n', '/', 's', 'h']);
    if base.len() > 0 && base.last() != '/' {
        assert(shell_marker(base) =~= shell_in_rootfs(base));
    } else {
        assert(shell_marker(base) =~= shell_in_rootfs(base));
    }
}

/// A zero-byte proot asset is refused: the bootstrap ends with an error
/// instead of installing it.
pub proof fn lemma_empty_proot_refused(base: Seq<char>)
    ensures
        boot_next(base, BootStage::LoadingProot, BootEventView::AssetFound(Some(0))) == fail(
            empty_proot_msg(),
        ),
{
}

/// The bootstrap fills the directory in which a session looks: the proot
/// binary and the rootfs it installs are the ones `plan_launch` checks and
/// launches.
pub proof fn lemma_bootstrap_fills_launch_paths()
    ensures
        proot_dest(files_dir_path()) == proot_path(files_dir_path()),
        rootfs_dest(files_dir_path()) == rootfs_path(files_dir_path()),
{
}

/// A proot asset that is present and non-empty, of whatever size, is always
/// installed: it is written to the proot path next. A missing one ends the
/// bootstrap with the not-found error.
pub proof fn lemma_nonempty_proot_written(base: Seq<char>, len: usize)
    ensures
        len > 0 ==> boot_next(base, BootStage::LoadingProot, BootEventView::AssetFound(Some(len)))
            == (BootStage::WritingProot, BootActionView::WriteAsset(proot_dest(base))),
        boot_next(base, BootStage::LoadingProot, BootEventView::AssetFound(None)) == (
            BootStage::Done,
            BootActionView::Finish(Err("proot-aarch64 not found in app assets"@)),
        ),
{
}

/// A tarball asset that is present is written to the temporary tarball,
/// whatever its size; a missing one ends the bootstrap with the not-found
/// error.
pub proof fn lemma_tarball_written(base: Seq<char>, len: usize)
    ensures
        boot_next(base, BootStage::LoadingTarball, BootEventView::AssetFound(Some(len))) == (
            BootStage::WritingTarball,
            BootActionView::WriteAsset(tarball_tmp(base)),
        ),
        boot_next(base, BootStage::LoadingTarball, BootEventView::AssetFound(None)) == (
            BootStage::Done,
            BootActionView::Finish(Err("alpine-rootfs.tar.gz not found in app assets"@)),
        ),
{
}

/// A first run in which every operation succeeds installs everything, in
/// this order: the files directory, the proot binary (written, then made
/// `rwxr-xr-x`), the rootfs (unpacked by `tar` from the temporary tarball,
/// which is then removed), `resolv.conf` with two name servers, and the
/// profile script; then it reports `bootstrapped`.
pub proof fn lemma_first_run(
    base: Seq<char>,
    proot_len: usize,
    tarball_len: usize,
    tar_code: Option<i32>,
    ignored: Result<(), Seq<char>>,
)
    requires
        proot_len > 0,
    ensures
        ({
            let ok = BootEventView::Completed(Ok(()));
            let r1 = boot_next(base, BootStage::CheckingInstalled, BootEventView::Checked(false));
            let r2 = boot_next(base, r1.0, ok);
            let r3 = boot_next(base, r2.0, BootEventView::Checked(false));
            let r4 = boot_next(base, r3.0, BootEventView::AssetFound(Some(proot_len)));
            let r5 = boot_next(base, r4.0, ok);
            let r6 = boot_next(base, r5.0, ok);
            let r7 = boot_next(base, r6.0, BootEventView::Checked(false));
            let r8 = boot_next(base, r7.0, ok);
            let r9 = boot_next(base, r8.0, BootEventView::AssetFound(Some(tarball_len)));
            let r10 = boot_next(base, r9.0, ok);
            let r11 = boot_next(
                base,
                r10.0,
                BootEventView::TarExited { success: true, code: tar_code },
            );
            let r12 = boot_next(base, r11.0, BootEventView::Completed(ignored));
            let r13 = boot_next(base, r12.0, BootEventView::Completed(ignored));
            let r14 = boot_next(base, r13.0, ok);
            let r15 = boot_next(base, r14.0, ok);
            let r16 = boot_next(base, r15.0, ok);
            let r17 = boot_next(base, r16.0, BootEventView::Completed(ignored));
            let r18 = boot_next(base, r17.0, ok);
            let r19 = boot_next(base, r18.0, ok);
            &&& r1.1 == BootActionView::CreateDirAll(base)
            &&& r2.1 == BootActionView::CheckExists(proot_dest(base))
            &&& r3.1 == BootActionView::LoadAsset("assets/android/proot-aarch64"@)
            &&& r4.1 == BootActionView::WriteAsset(proot_dest(base))
            &&& r5.1 == BootActionView::SetMode { path: proot_dest(base), mode: 0o755 }
            &&& r6.1 == BootActionView::CheckExists(shell_in_rootfs(base))
            &&& r7.1 == BootActionView::CreateDirAll(rootfs_dest(base))
            &&& r8.1 == BootActionView::LoadAsset("assets/android/alpine-rootfs.tar.gz"@)
            &&& r9.1 == BootActionView::WriteAsset(tarball_tmp(base))
            &&& r10.1 == BootActionView::RunTar(
                seq!["xzf"@, tarball_tmp(base), "-C"@, rootfs_dest(base)],
            )
            &&& r11.1 == BootActionView::RemoveFile(tarball_tmp(base))
            &&& r12.1 == BootActionView::CreateDirAll(etc_dir(base))
            &&& r13.1 == BootActionView::CreateFile(resolv_conf(base))
            &&& r14.1 == BootActionView::WriteText("nameserver 8.8.8.8\n"@)
            &&& r15.1 == BootActionView::WriteText("nameserver 1.1.1.1\n"@)
            &&& r16.1 == BootActionView::CreateDirAll(profile_dir(base))
            &&& r17.1 == BootActionView::CreateFile(profile_script(base))
            &&& r18.1 == BootActionView::WriteText(
                "export TERM=xterm-256color\nexport COLORTERM=truecolor\nexport TERAX_TERMINAL=1\nexport LANG=C.UTF-8\n"@,
            )
            &&& r19 == (BootStage::Done, BootActionView::Finish(Ok("bootstrapped"@)))
        }),
{
}

/// Parts already in place are not installed again: a present proot binary
/// leads straight to the rootfs check, and a present rootfs straight to the
/// configuration files.
pub proof fn lemma_present_parts_kept(base: Seq<char>)
    ensures
        boot_next(base, BootStage::CheckingProot, BootEventView::Checked(true)) == (
            BootStage::CheckingShell,
            BootActionView::CheckExists(shell_in_rootfs(base)),
        ),
        boot_next(base, BootStage::CheckingShell, BootEventView::Checked(true)) == (
            BootStage::CreatingEtc,
            BootActionView::CreateDirAll(etc_dir(base)),
        ),
{
}

/// Each failing operation ends the bootstrap with its own report: the
/// operation's name and the error's text, or the bare text for a failed
/// write to an open configuration file.
pub proof fn lemma_failure_reports(base: Seq<char>, e: Seq<char>, code: Option<i32>)
    ensures
        boot_next(base, BootStage::CreatingBase, BootEventView::Completed(Err(e))) == fail(
            "create files dir: "@ + e,
        ),
        boot_next(base, BootStage::WritingProot, BootEventView::Completed(Err(e))) == fail(
            "write proot binary: "@ + e,
        ),
        boot_next(base, BootStage::ChmoddingProot, BootEventView::Completed(Err(e))) == fail(
            "chmod proot: "@ + e,
        ),
        boot_next(base, BootStage::CreatingRootfs, BootEventView::Completed(Err(e))) == fail(
            "create rootfs dir: "@ + e,
        ),
        boot_next(base, BootStage::WritingTarball, BootEventView::Completed(Err(e))) == fail(
            "write intermediate tarball: "@ + e,
        ),
        boot_next(base, BootStage::Extracting, BootEventView::TarNotStarted(e)) == fail(
            "spawn tar: "@ + e,
        ),
        boot_next(
            base,
            BootStage::RemovingTarball { success: false, code },
            BootEventView::Completed(Ok(())),
        ) == fail("tar extraction failed: "@ + option_i32_debug(code)),
        boot_next(base, BootStage::CreatingResolv, BootEventView::Completed(Err(e))) == fail(
            "create resolv.conf: "@ + e,
        ),
        boot_next(base, BootStage::WritingNameserver1, BootEventView::Completed(Err(e))) == fail(
            e,
        ),
        boot_next(base, BootStage::WritingNameserver2, BootEventView::Completed(Err(e))) == fail(
            e,
        ),
        boot_next(base, BootStage::CreatingProfile, BootEventView::Completed(Err(e))) == fail(
            "create profile: "@ + e,
        ),
        boot_next(base, BootStage::WritingProfile, BootEventView::Completed(Err(e))) == fail(e),
        fail(e) == (BootStage::Done, BootActionView::Finish(Err(e))),
{
}

} // verus!
