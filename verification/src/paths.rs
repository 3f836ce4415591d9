//! File-system layout of the Android runtime: where the proot binary and the
//! Alpine rootfs live, and how paths are built from a base directory.
//!
//! Paths are kept as plain strings. `join` follows the rule of
//! `std::path::PathBuf::join` on Unix: an absolute component replaces the
//! base, otherwise a `/` separator is added when the base is non-empty and
//! does not already end with one.
use vstd::prelude::*;

verus! {

/// A path is absolute on Unix when it starts with the root `/`.
pub open spec fn is_absolute(p: Seq<char>) -> bool {
    p.len() > 0 && p[0] == '/'
}

/// The path obtained by adjoining `name` to `base`.
pub open spec fn spec_join(base: Seq<char>, name: Seq<char>) -> Seq<char> {
    if is_absolute(name) {
        name
    } else if base.len() > 0 && base.last() != '/' {
        base + seq!['/'] + name
    } else {
        base + name
    }
}

/// Adjoins `name` to `base`, as `PathBuf::join` does on Unix.
pub fn join(base: &str, name: &str) -> (r: String)
    ensures
        r@ == spec_join(base@, name@),
{
    let name_len = name.unicode_len();
    if name_len > 0 && name.get_char(0) == '/' {
        return name.to_owned();
    }
    let base_len = base.unicode_len();
    let mut r = base.to_owned();
    if base_len > 0 && base.get_char(base_len - 1) != '/' {
        let sep = "/";
        proof {
            reveal_strlit("/");
        }
        r.append(sep);
    }
    r.append(name);
    r
}

/// The directory into which the bootstrap extracts proot and Alpine.
pub open spec fn files_dir_path() -> Seq<char> {
    "/data/data/app.crynta.terax/files"@
}

/// Returns the directory where bootstrap extracted proot + Alpine.
/// On Android this is always /data/data/<package>/files.
pub fn android_files_dir() -> (r: String)
    ensures
        r@ == files_dir_path(),
{
    String::from_str("/data/data/app.crynta.terax/files")
}

/// Location of the proot binary below a base directory.
pub open spec fn proot_path(base: Seq<char>) -> Seq<char> {
    spec_join(base, "proot"@)
}

/// Location of the Alpine rootfs below a base directory.
pub open spec fn rootfs_path(base: Seq<char>) -> Seq<char> {
    spec_join(base, "rootfs"@)
}

/// The proot binary extracted by the bootstrap.
pub fn proot_bin() -> (r: String)
    ensures
        r@ == proot_path(files_dir_path()),
{
    let base = android_files_dir();
    join(base.as_str(), "proot")
}

/// The Alpine rootfs extracted by the bootstrap.
pub fn rootfs_dir() -> (r: String)
    ensures
        r@ == rootfs_path(files_dir_path()),
{
    let base = android_files_dir();
    join(base.as_str(), "rootfs")
}

/// Joining never loses the name: the result always ends with it. An
/// absolute name is the whole result; a relative one keeps the base in
/// front, with exactly one `/` between them when the base does not already
/// end with one.
pub proof fn lemma_join_parts(base: Seq<char>, name: Seq<char>)
    ensures
        spec_join(base, name).len() >= name.len(),
        spec_join(base, name).subrange(
            spec_join(base, name).len() - name.len(),
            spec_join(base, name).len() as int,
        ) =~= name,
        is_absolute(name) ==> spec_join(base, name) == name,
        !is_absolute(name) ==> spec_join(base, name).subrange(0, base.len() as int) =~= base,
        !is_absolute(name) && base.len() > 0 && base.last() != '/' ==> spec_join(base, name).len()
            == base.len() + 1 + name.len() && spec_join(base, name)[base.len() as int] == '/',
        !is_absolute(name) && (base.len() == 0 || base.last() == '/') ==> spec_join(
            base,
            name,
        ).len() == base.len() + name.len(),
{
}

} // verus!
