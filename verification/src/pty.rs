//! Terminal sessions: what is launched inside the Alpine rootfs, and the
//! registry that hands out session ids and finds a session again for a
//! write, a resize or a close.
use std::collections::HashMap;
use vstd::prelude::*;

use crate::paths::{files_dir_path, proot_bin, proot_path, rootfs_dir, rootfs_path};
use crate::text::prefixed;

verus! {

broadcast use vstd::std_specs::hash::group_hash_axioms;

// ── Launch ──────────────────────────────────────────────────────────────────
/// The error when the proot binary has not been extracted yet.
pub open spec fn bootstrap_missing_msg() -> Seq<char> {
    "Bootstrap not complete. Call bootstrap_android from the frontend first."@
}

/// The error when the rootfs has not been extracted.
pub open spec fn rootfs_missing_msg() -> Seq<char> {
    "Rootfs not found. Bootstrap may have failed."@
}

/// The working directory inside the rootfs: the one asked for when it is
/// given and non-empty, `/root` otherwise.
pub open spec fn spec_inner_cwd(cwd: Option<Seq<char>>) -> Seq<char> {
    match cwd {
        Some(c) => if c.len() > 0 {
            c
        } else {
            "/root"@
        },
        None => "/root"@,
    }
}

/// The arguments given to proot: fake root, the Alpine rootfs, the host's
/// /dev, /proc, /sys and /data bound in, the working directory, and a login
/// shell.
pub open spec fn spec_proot_args(rootfs: Seq<char>, cwd: Seq<char>) -> Seq<Seq<char>> {
    seq![
        "-0"@,
        "-r"@,
        rootfs,
        "-b"@,
        "/dev"@,
        "-b"@,
        "/proc"@,
        "-b"@,
        "/sys"@,
        "-b"@,
        "/data:/data"@,
        "-w"@,
        cwd,
        "/bin/sh"@,
        "-l"@,
    ]
}

/// The environment of the shell.
pub open spec fn spec_proot_env() -> Seq<(Seq<char>, Seq<char>)> {
    seq![
        ("TERM"@, "xterm-256color"@),
        ("COLORTERM"@, "truecolor"@),
        ("TERAX_TERMINAL"@, "1"@),
        ("HOME"@, "/root"@),
        ("USER"@, "root"@),
        ("PATH"@, "/usr/local/sbin:/usr/local/bin:/usr/sbin:/usr/bin:/sbin:/bin"@),
    ]
}

/// The texts of a sequence of strings.
pub open spec fn texts(v: Seq<String>) -> Seq<Seq<char>> {
    v.map_values(|s: String| s@)
}

/// The texts of a sequence of pairs of strings.
pub open spec fn text_pairs(v: Seq<(String, String)>) -> Seq<(Seq<char>, Seq<char>)> {
    v.map_values(|p: (String, String)| (p.0@, p.1@))
}

/// What is started for a new session: the program, its arguments and its
/// environment.
pub struct LaunchPlan {
    pub program: String,
    pub args: Vec<String>,
    pub env: Vec<(String, String)>,
}

/// The working directory inside the rootfs for the directory asked for.
pub fn inner_cwd(cwd: Option<String>) -> (r: String)
    ensures
        r@ == spec_inner_cwd(
            match cwd {
                Some(c) => Some(c@),
                None => None,
            },
        ),
{
    match cwd {
        Some(c) => {
            if c.as_str().is_empty() {
                "/root".to_owned()
            } else {
                c
            }
        },
        None => "/root".to_owned(),
    }
}

/// The arguments given to proot for a rootfs and a working directory.
pub fn proot_args(rootfs: &str, cwd: &str) -> (r: Vec<String>)
    ensures
        texts(r@) == spec_proot_args(rootfs@, cwd@),
{
    let mut r: Vec<String> = Vec::new();
    r.push("-0".to_owned());
    r.push("-r".to_owned());
    r.push(rootfs.to_owned());
    r.push("-b".to_owned());
    r.push("/dev".to_owned());
    r.push("-b".to_owned());
    r.push("/proc".to_owned());
    r.push("-b".to_owned());
    r.push("/sys".to_owned());
    r.push("-b".to_owned());
    r.push("/data:/data".to_owned());
    r.push("-w".to_owned());
    r.push(cwd.to_owned());
    r.push("/bin/sh".to_owned());
    r.push("-l".to_owned());
    assert(texts(r@) =~= spec_proot_args(rootfs@, cwd@));
    r
}

/// The environment of the shell.
pub fn proot_env() -> (r: Vec<(String, String)>)
    ensures
        text_pairs(r@) == spec_proot_env(),
{
    let mut r: Vec<(String, String)> = Vec::new();
    r.push(("TERM".to_owned(), "xterm-256color".to_owned()));
    r.push(("COLORTERM".to_owned(), "truecolor".to_owned()));
    r.push(("TERAX_TERMINAL".to_owned(), "1".to_owned()));
    r.push(("HOME".to_owned(), "/root".to_owned()));
    r.push(("USER".to_owned(), "root".to_owned()));
    r.push(
        (
            "PATH".to_owned(),
            "/usr/local/sbin:/usr/local/bin:/usr/sbin:/usr/bin:/sbin:/bin".to_owned(),
        ),
    );
    assert(text_pairs(r@) =~= spec_proot_env());
    r
}

/// Decides what a new session launches. The bootstrap must have extracted
/// both the proot binary and the rootfs (`proot_exists`, `rootfs_exists`);
/// otherwise the session is refused with the matching error, the proot
/// check first.
pub fn plan_launch(proot_exists: bool, rootfs_exists: bool, cwd: Option<String>) -> (r: Result<
    LaunchPlan,
    String,
>)
    ensures
        !proot_exists ==> (r matches Err(e) && e@ == bootstrap_missing_msg()),
        proot_exists && !rootfs_exists ==> (r matches Err(e) && e@ == rootfs_missing_msg()),
        proot_exists && rootfs_exists ==> (r matches Ok(plan) && {
            &&& plan.program@ == proot_path(files_dir_path())
            &&& texts(plan.args@) == spec_proot_args(
                rootfs_path(files_dir_path()),
                spec_inner_cwd(
                    match cwd {
                        Some(c) => Some(c@),
                        None => None,
                    },
                ),
            )
            &&& text_pairs(plan.env@) == spec_proot_env()
        }),
{
    if !proot_exists {
        return Err(
            "Bootstrap not complete. Call bootstrap_android from the frontend first.".to_owned(),
        );
    }
    if !rootfs_exists {
        return Err("Rootfs not found. Bootstrap may have failed.".to_owned());
    }
    let program = proot_bin();
    let rootfs = rootfs_dir();
    let cwd = inner_cwd(cwd);
    let args = proot_args(rootfs.as_str(), cwd.as_str());
    let env = proot_env();
    Ok(LaunchPlan { program, args, env })
}

// ── Sessions ────────────────────────────────────────────────────────────────
/// A running terminal session: the master side of its pseudo-terminal, the
/// process id of proot, and the handle through which input reaches the
/// writer of the session.
pub struct Session<W> {
    pub master_fd: i32,
    pub child_pid: i32,
    pub writer: W,
}

/// The registry as a mathematical value: the sessions by id, and the id
/// that the next session receives.
pub struct Registry<W> {
    pub sessions: Map<u32, Session<W>>,
    pub next_id: u32,
}

/// The registry of the open sessions.
pub struct PtyState<W> {
    sessions: HashMap<u32, Session<W>>,
    next_id: u32,
}

impl<W> View for PtyState<W> {
    type V = Registry<W>;

    closed spec fn view(&self) -> Registry<W> {
        Registry { sessions: self.sessions@, next_id: self.next_id }
    }
}

/// The id after `id`; ids wrap around after `u32::MAX`.
pub open spec fn following_id(id: u32) -> u32 {
    if id == u32::MAX {
        0
    } else {
        (id + 1) as u32
    }
}

/// The registry right after it was created.
pub open spec fn registry_init<W>() -> Registry<W> {
    Registry { sessions: Map::empty(), next_id: 1 }
}

/// The registry after `session` was opened: it is filed under the next id.
pub open spec fn registry_open<W>(r: Registry<W>, session: Session<W>) -> Registry<W> {
    Registry { sessions: r.sessions.insert(r.next_id, session), next_id: following_id(r.next_id) }
}

/// The registry after the session `id` was closed.
pub open spec fn registry_close<W>(r: Registry<W>, id: u32) -> Registry<W> {
    Registry { sessions: r.sessions.remove(id), next_id: r.next_id }
}

/// The error for an id that names no open session.
pub open spec fn no_session_msg() -> Seq<char> {
    "no session"@
}

/// What a write to `id` reaches: the writer of that session, or the
/// no-session error.
pub open spec fn registry_writer<W>(r: Registry<W>, id: u32) -> Result<W, Seq<char>> {
    if r.sessions.contains_key(id) {
        Ok(r.sessions[id].writer)
    } else {
        Err(no_session_msg())
    }
}

/// What a resize of `id` acts on: the master descriptor and the proot
/// process of that session, or the no-session error.
pub open spec fn registry_resize_target<W>(r: Registry<W>, id: u32) -> Result<
    (i32, i32),
    Seq<char>,
> {
    if r.sessions.contains_key(id) {
        Ok((r.sessions[id].master_fd, r.sessions[id].child_pid))
    } else {
        Err(no_session_msg())
    }
}

impl<W> Default for PtyState<W> {
    /// An empty registry whose first session gets id 1.
    fn default() -> (r: Self)
        ensures
            r@ == registry_init::<W>(),
    {
        let r = PtyState { sessions: HashMap::new(), next_id: 1 };
        assert(r@.sessions =~= Map::<u32, Session<W>>::empty());
        r
    }
}

impl<W> PtyState<W> {
    /// Files a new session under the next id and returns that id, with the
    /// session that held the id before, if the ids have wrapped around onto
    /// a session that is still open.
    pub fn open_session(&mut self, session: Session<W>) -> (r: (u32, Option<Session<W>>))
        ensures
            r.0 == old(self)@.next_id,
            final(self)@ == registry_open(old(self)@, session),
            old(self)@.sessions.contains_key(r.0) ==> r.1 == Some(old(self)@.sessions[r.0]),
            !old(self)@.sessions.contains_key(r.0) ==> r.1 is None,
    {
        let id = self.next_id;
        let displaced = self.sessions.insert(id, session);
        self.next_id = if id == u32::MAX {
            0
        } else {
            id + 1
        };
        (id, displaced)
    }

    /// The writer that input for session `id` goes to.
    pub fn write_target(&self, id: u32) -> (r: Result<&W, String>)
        ensures
            match (r, registry_writer(self@, id)) {
                (Ok(w), Ok(v)) => *w == v,
                (Err(e), Err(m)) => e@ == m,
                _ => false,
            },
    {
        match self.sessions.get(&id) {
            Some(s) => Ok(&s.writer),
            None => Err("no session".to_owned()),
        }
    }

    /// The master descriptor and the proot process of session `id`, which a
    /// resize acts on.
    pub fn resize_target(&self, id: u32) -> (r: Result<(i32, i32), String>)
        ensures
            match (r, registry_resize_target(self@, id)) {
                (Ok(t), Ok(u)) => t == u,
                (Err(e), Err(m)) => e@ == m,
                _ => false,
            },
    {
        match self.sessions.get(&id) {
            Some(s) => Ok((s.master_fd, s.child_pid)),
            None => Err("no session".to_owned()),
        }
    }

    /// Takes session `id` out of the registry; the caller ends it. Closing
    /// an id that names no session changes nothing.
    pub fn close_session(&mut self, id: u32) -> (r: Option<Session<W>>)
        ensures
            final(self)@ == registry_close(old(self)@, id),
            old(self)@.sessions.contains_key(id) ==> r == Some(old(self)@.sessions[id]),
            !old(self)@.sessions.contains_key(id) ==> r is None,
    {
        self.sessions.remove(&id)
    }
}

/// The error when setting the window size failed.
pub open spec fn resize_failed_msg(os_error: Seq<char>) -> Seq<char> {
    "TIOCSWINSZ failed: "@ + os_error
}

/// The answer to a resize once the window size was set: `ret` is what the
/// `TIOCSWINSZ` request returned, `os_error` the text of the error it left.
/// Any result but 0 is a failure.
pub fn resize_outcome(ret: i32, os_error: &str) -> (r: Result<(), String>)
    ensures
        ret == 0 ==> r is Ok,
        ret != 0 ==> (r matches Err(e) && e@ == resize_failed_msg(os_error@)),
{
    if ret != 0 {
        Err(prefixed("TIOCSWINSZ failed: ", os_error))
    } else {
        Ok(())
    }
}

// ── Laws of the registry ───────────────────────────────────────────────────
/// Opening a session makes it reachable: a write to the returned id reaches
/// the new session's writer, and a resize acts on its descriptor and process.
pub proof fn lemma_open_then_lookup<W>(r: Registry<W>, session: Session<W>)
    ensures
        registry_writer(registry_open(r, session), r.next_id) == Ok::<W, Seq<char>>(
            session.writer,
        ),
        registry_resize_target(registry_open(r, session), r.next_id) == Ok::<
            (i32, i32),
            Seq<char>,
        >((session.master_fd, session.child_pid)),
{
}

/// Opening a session leaves every other session as it was.
pub proof fn lemma_open_keeps_others<W>(r: Registry<W>, session: Session<W>, id: u32)
    requires
        id != r.next_id,
    ensures
        registry_writer(registry_open(r, session), id) == registry_writer(r, id),
        registry_resize_target(registry_open(r, session), id) == registry_resize_target(r, id),
{
}

/// Two sessions opened one after the other get different ids.
pub proof fn lemma_consecutive_ids_differ<W>(r: Registry<W>, s1: Session<W>)
    ensures
        registry_open(r, s1).next_id != r.next_id,
{
}

/// The first session opened in a fresh registry gets id 1.
pub proof fn lemma_first_id_is_one<W>(session: Session<W>)
    ensures
        registry_open(registry_init::<W>(), session).sessions.dom() =~= set![1u32],
{
}

/// After a close, the session is gone: a write or a resize names no
/// session.
pub proof fn lemma_close_then_lookup<W>(r: Registry<W>, id: u32)
    ensures
        registry_writer(registry_close(r, id), id) == Err::<W, Seq<char>>(no_session_msg()),
        registry_resize_target(registry_close(r, id), id) == Err::<(i32, i32), Seq<char>>(
            no_session_msg(),
        ),
{
}

/// Closing an id that names no session leaves the registry unchanged.
pub proof fn lemma_close_unknown_is_noop<W>(r: Registry<W>, id: u32)
    requires
        !r.sessions.contains_key(id),
    ensures
        registry_close(r, id) == r,
{
    assert(r.sessions.remove(id) =~= r.sessions);
}

/// Closing a session leaves every other session as it was.
pub proof fn lemma_close_keeps_others<W>(r: Registry<W>, id: u32, other: u32)
    requires
        id != other,
    ensures
        registry_writer(registry_close(r, id), other) == registry_writer(r, other),
        registry_resize_target(registry_close(r, id), other) == registry_resize_target(r, other),
{
}

// ── Laws of launching ───────────────────────────────────────────────────────
/// A session starts in the directory asked for whenever one is given and
/// non-empty; otherwise it starts in `/root`.
pub proof fn lemma_requested_cwd_kept(c: Seq<char>)
    ensures
        c.len() > 0 ==> spec_inner_cwd(Some(c)) == c,
        c.len() == 0 ==> spec_inner_cwd(Some(c)) == "/root"@,
        spec_inner_cwd(None) == "/root"@,
{
}

/// proot is given fifteen arguments: the rootfs right after `-r`, the
/// working directory right after `-w`, and a login shell last.
pub proof fn lemma_proot_args_layout(rootfs: Seq<char>, cwd: Seq<char>)
    ensures
        spec_proot_args(rootfs, cwd).len() == 15,
        spec_proot_args(rootfs, cwd)[1] == "-r"@,
        spec_proot_args(rootfs, cwd)[2] == rootfs,
        spec_proot_args(rootfs, cwd)[11] == "-w"@,
        spec_proot_args(rootfs, cwd)[12] == cwd,
        spec_proot_args(rootfs, cwd)[13] == "/bin/sh"@,
        spec_proot_args(rootfs, cwd)[14] == "-l"@,
{
}

// ── Laws of the session ids ────────────────────────────────────────────────
/// Ids count up by one, as an atomic `fetch_add(1)` does, and wrap to 0
/// after `u32::MAX`.
pub proof fn lemma_ids_count_up(id: u32)
    ensures
        id < u32::MAX ==> following_id(id) == id + 1,
        id == u32::MAX ==> following_id(id) == 0,
{
}

/// The registry after the sessions `s` were opened one after another on a
/// fresh registry, with nothing closed.
pub open spec fn opened_in_turn<W>(s: Seq<Session<W>>) -> Registry<W>
    decreases s.len(),
{
    if s.len() == 0 {
        registry_init::<W>()
    } else {
        registry_open(opened_in_turn(s.drop_last()), s.last())
    }
}

/// Sessions opened one after another on a fresh registry get the ids
/// 1, 2, …, n in turn: the i-th session is filed under id i + 1, no other id
/// is in use, the next session gets n + 1, and no open session is ever
/// displaced (the id given out was free).
pub proof fn lemma_fresh_ids_are_one_to_n<W>(s: Seq<Session<W>>)
    requires
        s.len() < u32::MAX,
    ensures
        opened_in_turn(s).next_id == s.len() + 1,
        forall|k: u32| opened_in_turn(s).sessions.contains_key(k) <==> 1 <= k <= s.len(),
        forall|i: int| 0 <= i < s.len() ==> opened_in_turn(s).sessions[(i + 1) as u32] == s[i],
        s.len() > 0 ==> !opened_in_turn(s.drop_last()).sessions.contains_key(
            opened_in_turn(s.drop_last()).next_id,
        ),
    decreases s.len(),
{
    if s.len() > 0 {
        let prev = s.drop_last();
        lemma_fresh_ids_are_one_to_n(prev);
        assert forall|i: int| 0 <= i < s.len() implies opened_in_turn(s).sessions[(i + 1) as u32]
            == s[i] by {
            if i < prev.len() {
                assert(prev[i] == s[i]);
            }
        }
    }
}

} // verus!
