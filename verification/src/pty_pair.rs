//! Opening a pseudo-terminal pair with the POSIX sequence that Android's
//! Bionic libc provides (there is no `openpty` there):
//! `posix_openpt` → `grantpt` → `unlockpt` → `ptsname` → `open(slave)`, then
//! the initial window size is set on the master.
//!
//! The calls themselves are made by the caller. This module decides, from
//! the outcome of each call, which call comes next, when the master has to
//! be released again, and what is reported at the end.
use vstd::prelude::*;

use crate::text::prefixed;

verus! {

/// Why an opening sequence failed after the master was opened.
#[derive(PartialEq, Eq, Structural, Clone, Copy, Debug)]
pub enum PairFailure {
    Grant,
    Unlock,
    NoSlaveName,
    OpenSlave,
}

/// Where an opening sequence stands.
#[derive(PartialEq, Eq, Structural, Clone, Copy, Debug)]
pub enum PairState {
    /// The master is being opened.
    Starting { cols: u16, rows: u16 },
    /// Access to the slave is being granted.
    Granting { master: i32, cols: u16, rows: u16 },
    /// The slave is being unlocked.
    Unlocking { master: i32, cols: u16, rows: u16 },
    /// The name of the slave device is being queried.
    Naming { master: i32, cols: u16, rows: u16 },
    /// The slave device is being opened.
    OpeningSlave { master: i32, cols: u16, rows: u16 },
    /// The window size is being set on the master.
    Sizing { master: i32, slave: i32 },
    /// A step failed; the master is being closed before the error is
    /// reported.
    Releasing { master: i32, failure: PairFailure },
    /// The sequence is over.
    Finished,
}

/// The next call to make.
#[derive(Debug, PartialEq, Eq)]
pub enum PairAction {
    /// `posix_openpt(O_RDWR | O_NOCTTY)`.
    OpenMaster,
    /// `grantpt(master)`.
    Grant { master: i32 },
    /// `unlockpt(master)`.
    Unlock { master: i32 },
    /// `ptsname(master)`.
    QuerySlaveName { master: i32 },
    /// Convert `name` to a C string and `open(name, O_RDWR | O_NOCTTY)`.
    OpenSlave { name: String },
    /// `ioctl(master, TIOCSWINSZ, {cols, rows, 0, 0})`; the result is not
    /// looked at.
    SetWindowSize { master: i32, cols: u16, rows: u16 },
    /// `close(master)`.
    CloseMaster { master: i32 },
    /// The sequence is over: the descriptors of master and slave, or the
    /// error.
    Finish(Result<(i32, i32), String>),
}

/// The outcome of the call that was made.
#[derive(Debug, PartialEq, Eq)]
pub enum PairEvent {
    /// A call that returns a descriptor returned `fd`; `os_error` is the text
    /// of the error it left.
    Descriptor { fd: i32, os_error: String },
    /// A call that returns a status returned `code`.
    Status { code: i32, os_error: String },
    /// `ptsname` returned this name, or a null pointer.
    SlaveName(Option<String>),
    /// The slave's name could not be made a C string; the text of that error.
    NameRejected(String),
    /// The window size request was made.
    WindowSizeSet,
    /// The master was closed; `os_error` is the text of the error left then.
    MasterClosed { os_error: String },
}

/// `PairAction` with texts in place of strings.
pub enum PairActionView {
    OpenMaster,
    Grant { master: i32 },
    Unlock { master: i32 },
    QuerySlaveName { master: i32 },
    OpenSlave { name: Seq<char> },
    SetWindowSize { master: i32, cols: u16, rows: u16 },
    CloseMaster { master: i32 },
    Finish(Result<(i32, i32), Seq<char>>),
}

/// `PairEvent` with texts in place of strings.
pub enum PairEventView {
    Descriptor { fd: i32, os_error: Seq<char> },
    Status { code: i32, os_error: Seq<char> },
    SlaveName(Option<Seq<char>>),
    NameRejected(Seq<char>),
    WindowSizeSet,
    MasterClosed { os_error: Seq<char> },
}

impl View for PairAction {
    type V = PairActionView;

    open spec fn view(&self) -> PairActionView {
        match self {
            PairAction::OpenMaster => PairActionView::OpenMaster,
            PairAction::Grant { master } => PairActionView::Grant { master: *master },
            PairAction::Unlock { master } => PairActionView::Unlock { master: *master },
            PairAction::QuerySlaveName { master } => PairActionView::QuerySlaveName {
                master: *master,
            },
            PairAction::OpenSlave { name } => PairActionView::OpenSlave { name: name@ },
            PairAction::SetWindowSize { master, cols, rows } => PairActionView::SetWindowSize {
                master: *master,
                cols: *cols,
                rows: *rows,
            },
            PairAction::CloseMaster { master } => PairActionView::CloseMaster { master: *master },
            PairAction::Finish(r) => PairActionView::Finish(
                match r {
                    Ok(p) => Ok(*p),
                    Err(e) => Err(e@),
                },
            ),
        }
    }
}

impl View for PairEvent {
    type V = PairEventView;

    open spec fn view(&self) -> PairEventView {
        match self {
            PairEvent::Descriptor { fd, os_error } => PairEventView::Descriptor {
                fd: *fd,
                os_error: os_error@,
            },
            PairEvent::Status { code, os_error } => PairEventView::Status {
                code: *code,
                os_error: os_error@,
            },
            PairEvent::SlaveName(n) => PairEventView::SlaveName(
                match n {
                    Some(s) => Some(s@),
                    None => None,
                },
            ),
            PairEvent::NameRejected(m) => PairEventView::NameRejected(m@),
            PairEvent::WindowSizeSet => PairEventView::WindowSizeSet,
            PairEvent::MasterClosed { os_error } => PairEventView::MasterClosed {
                os_error: os_error@,
            },
        }
    }
}

/// Whether `event` is an outcome of the call that `state` waits for.
pub open spec fn pair_accepts(state: PairState, event: PairEventView) -> bool {
    match state {
        PairState::Starting { .. } => event is Descriptor,
        PairState::Granting { .. } => event is Status,
        PairState::Unlocking { .. } => event is Status,
        PairState::Naming { .. } => event is SlaveName,
        PairState::OpeningSlave { .. } => event is Descriptor || event is NameRejected,
        PairState::Sizing { .. } => event is WindowSizeSet,
        PairState::Releasing { .. } => event is MasterClosed,
        PairState::Finished => false,
    }
}

/// The error reported for a failure once the master was closed.
pub open spec fn failure_msg(failure: PairFailure, os_error: Seq<char>) -> Seq<char> {
    match failure {
        PairFailure::Grant => "grantpt failed: "@ + os_error,
        PairFailure::Unlock => "unlockpt failed: "@ + os_error,
        PairFailure::NoSlaveName => "ptsname returned null"@,
        PairFailure::OpenSlave => "open slave pty failed: "@ + os_error,
    }
}

/// The next state and call after `event`, for a `state` that accepts it.
pub open spec fn pair_next(state: PairState, event: PairEventView) -> (PairState, PairActionView) {
    match (state, event) {
        (PairState::Starting { cols, rows }, PairEventView::Descriptor { fd, os_error }) => {
            if fd < 0 {
                (
                    PairState::Finished,
                    PairActionView::Finish(Err("posix_openpt failed: "@ + os_error)),
                )
            } else {
                (
                    PairState::Granting { master: fd, cols, rows },
                    PairActionView::Grant { master: fd },
                )
            }
        },
        (PairState::Granting { master, cols, rows }, PairEventView::Status { code, .. }) => {
            if code < 0 {
                (
                    PairState::Releasing { master, failure: PairFailure::Grant },
                    PairActionView::CloseMaster { master },
                )
            } else {
                (PairState::Unlocking { master, cols, rows }, PairActionView::Unlock { master })
            }
        },
        (PairState::Unlocking { master, cols, rows }, PairEventView::Status { code, .. }) => {
            if code < 0 {
                (
                    PairState::Releasing { master, failure: PairFailure::Unlock },
                    PairActionView::CloseMaster { master },
                )
            } else {
                (
                    PairState::Naming { master, cols, rows },
                    PairActionView::QuerySlaveName { master },
                )
            }
        },
        (PairState::Naming { master, cols, rows }, PairEventView::SlaveName(name)) => {
            match name {
                Some(n) => (
                    PairState::OpeningSlave { master, cols, rows },
                    PairActionView::OpenSlave { name: n },
                ),
                None => (
                    PairState::Releasing { master, failure: PairFailure::NoSlaveName },
                    PairActionView::CloseMaster { master },
                ),
            }
        },
        (PairState::OpeningSlave { .. }, PairEventView::NameRejected(msg)) => {
            (PairState::Finished, PairActionView::Finish(Err("ptsname CString: "@ + msg)))
        },
        (PairState::OpeningSlave { master, cols, rows }, PairEventView::Descriptor { fd, .. }) => {
            if fd < 0 {
                (
                    PairState::Releasing { master, failure: PairFailure::OpenSlave },
                    PairActionView::CloseMaster { master },
                )
            } else {
                (
                    PairState::Sizing { master, slave: fd },
                    PairActionView::SetWindowSize { master, cols, rows },
                )
            }
        },
        (PairState::Sizing { master, slave }, PairEventView::WindowSizeSet) => {
            (PairState::Finished, PairActionView::Finish(Ok((master, slave))))
        },
        (PairState::Releasing { failure, .. }, PairEventView::MasterClosed { os_error }) => {
            (PairState::Finished, PairActionView::Finish(Err(failure_msg(failure, os_error))))
        },
        // Not reached for an accepted event.
        _ => (PairState::Finished, PairActionView::OpenMaster),
    }
}

/// The first state and call of an opening sequence for a terminal of
/// `cols` × `rows` characters.
pub fn pair_start(cols: u16, rows: u16) -> (r: (PairState, PairAction))
    ensures
        r.0 == (PairState::Starting { cols, rows }),
        r.1@ == PairActionView::OpenMaster,
{
    (PairState::Starting { cols, rows }, PairAction::OpenMaster)
}

/// Whether `event` is an outcome of the call that `state` waits for.
pub fn pair_accepts_event(state: &PairState, event: &PairEvent) -> (r: bool)
    ensures
        r == pair_accepts(*state, event@),
{
    match state {
        PairState::Starting { .. } => matches!(event, PairEvent::Descriptor { .. }),
        PairState::Granting { .. } => matches!(event, PairEvent::Status { .. }),
        PairState::Unlocking { .. } => matches!(event, PairEvent::Status { .. }),
        PairState::Naming { .. } => matches!(event, PairEvent::SlaveName(_)),
        PairState::OpeningSlave { .. } => matches!(
            event,
            PairEvent::Descriptor { .. } | PairEvent::NameRejected(_)
        ),
        PairState::Sizing { .. } => matches!(event, PairEvent::WindowSizeSet),
        PairState::Releasing { .. } => matches!(event, PairEvent::MasterClosed { .. }),
        PairState::Finished => false,
    }
}

fn failure_text(failure: PairFailure, os_error: &str) -> (r: String)
    ensures
        r@ == failure_msg(failure, os_error@),
{
    match failure {
        PairFailure::Grant => prefixed("grantpt failed: ", os_error),
        PairFailure::Unlock => prefixed("unlockpt failed: ", os_error),
        PairFailure::NoSlaveName => "ptsname returned null".to_owned(),
        PairFailure::OpenSlave => prefixed("open slave pty failed: ", os_error),
    }
}

/// Decides the next state and call from the outcome of the last call.
pub fn pair_step(state: PairState, event: PairEvent) -> (r: (PairState, PairAction))
    requires
        pair_accepts(state, event@),
    ensures
        (r.0, r.1@) == pair_next(state, event@),
{
    match (state, event) {
        (PairState::Starting { cols, rows }, PairEvent::Descriptor { fd, os_error }) => {
            if fd < 0 {
                (
                    PairState::Finished,
                    PairAction::Finish(Err(prefixed("posix_openpt failed: ", os_error.as_str()))),
                )
            } else {
                (PairState::Granting { master: fd, cols, rows }, PairAction::Grant { master: fd })
            }
        },
        (PairState::Granting { master, cols, rows }, PairEvent::Status { code, .. }) => {
            if code < 0 {
                (
                    PairState::Releasing { master, failure: PairFailure::Grant },
                    PairAction::CloseMaster { master },
                )
            } else {
                (PairState::Unlocking { master, cols, rows }, PairAction::Unlock { master })
            }
        },
        (PairState::Unlocking { master, cols, rows }, PairEvent::Status { code, .. }) => {
            if code < 0 {
                (
                    PairState::Releasing { master, failure: PairFailure::Unlock },
                    PairAction::CloseMaster { master },
                )
            } else {
                (PairState::Naming { master, cols, rows }, PairAction::QuerySlaveName { master })
            }
        },
        (PairState::Naming { master, cols, rows }, PairEvent::SlaveName(name)) => {
            match name {
                Some(n) => (
                    PairState::OpeningSlave { master, cols, rows },
                    PairAction::OpenSlave { name: n },
                ),
                None => (
                    PairState::Releasing { master, failure: PairFailure::NoSlaveName },
                    PairAction::CloseMaster { master },
                ),
            }
        },
        (PairState::OpeningSlave { .. }, PairEvent::NameRejected(msg)) => {
            (
                PairState::Finished,
                PairAction::Finish(Err(prefixed("ptsname CString: ", msg.as_str()))),
            )
        },
        (PairState::OpeningSlave { master, cols, rows }, PairEvent::Descriptor { fd, .. }) => {
            if fd < 0 {
                (
                    PairState::Releasing { master, failure: PairFailure::OpenSlave },
                    PairAction::CloseMaster { master },
                )
            } else {
                (
                    PairState::Sizing { master, slave: fd },
                    PairAction::SetWindowSize { master, cols, rows },
                )
            }
        },
        (PairState::Sizing { master, slave }, PairEvent::WindowSizeSet) => {
            (PairState::Finished, PairAction::Finish(Ok((master, slave))))
        },
        (PairState::Releasing { failure, .. }, PairEvent::MasterClosed { os_error }) => {
            (
                PairState::Finished,
                PairAction::Finish(Err(failure_text(failure, os_error.as_str()))),
            )
        },
        // Not reached: the event is accepted.
        _ => (PairState::Finished, PairAction::OpenMaster),
    }
}

// ── Laws of the opening sequence ───────────────────────────────────────────
/// How far a state is from the end of the sequence.
pub open spec fn pair_rank(state: PairState) -> nat {
    match state {
        PairState::Starting { .. } => 6,
        PairState::Granting { .. } => 5,
        PairState::Unlocking { .. } => 4,
        PairState::Naming { .. } => 3,
        PairState::OpeningSlave { .. } => 2,
        PairState::Sizing { .. } => 1,
        PairState::Releasing { .. } => 1,
        PairState::Finished => 0,
    }
}

/// Every step moves closer to the end, so an opening sequence always ends;
/// and it has ended exactly when the call asked for is `Finish`.
pub proof fn lemma_pair_step_progresses(state: PairState, event: PairEventView)
    requires
        pair_accepts(state, event),
    ensures
        pair_rank(pair_next(state, event).0) < pair_rank(state),
        (pair_next(state, event).0 is Finished) <==> (pair_next(state, event).1 is Finish),
{
}

/// Once the master is open, a failing grant, unlock, name query or slave
/// open does not leak it: the next call closes it, and the error comes only
/// after.
pub proof fn lemma_failure_releases_master(state: PairState, event: PairEventView)
    requires
        pair_accepts(state, event),
        match event {
            PairEventView::Status { code, .. } => code < 0,
            PairEventView::SlaveName(n) => n is None,
            PairEventView::Descriptor { fd, .. } => fd < 0 && !(state is Starting),
            _ => false,
        },
    ensures
        match state {
            PairState::Granting { master, .. } | PairState::Unlocking { master, .. }
            | PairState::Naming { master, .. } | PairState::OpeningSlave { master, .. } => {
                pair_next(state, event).1 == PairActionView::CloseMaster { master }
                    && pair_next(state, event).0 is Releasing
            },
            _ => false,
        },
{
}

/// A sequence that gets through every call reports the master returned by
/// `posix_openpt` and the slave returned by `open`.
pub proof fn lemma_success_reports_descriptors(
    cols: u16,
    rows: u16,
    master: i32,
    slave: i32,
    e1: Seq<char>,
    e2: Seq<char>,
    e3: Seq<char>,
    name: Seq<char>,
    e4: Seq<char>,
    c1: i32,
    c2: i32,
)
    requires
        master >= 0,
        slave >= 0,
        c1 >= 0,
        c2 >= 0,
    ensures
        ({
            let s0 = PairState::Starting { cols, rows };
            let s1 = pair_next(s0, PairEventView::Descriptor { fd: master, os_error: e1 }).0;
            let s2 = pair_next(s1, PairEventView::Status { code: c1, os_error: e2 }).0;
            let s3 = pair_next(s2, PairEventView::Status { code: c2, os_error: e3 }).0;
            let r4 = pair_next(s3, PairEventView::SlaveName(Some(name)));
            let r5 = pair_next(r4.0, PairEventView::Descriptor { fd: slave, os_error: e4 });
            let r6 = pair_next(r5.0, PairEventView::WindowSizeSet);
            &&& r4.1 == PairActionView::OpenSlave { name }
            &&& r5.1 == PairActionView::SetWindowSize { master, cols, rows }
            &&& r6 == (PairState::Finished, PairActionView::Finish(Ok((master, slave))))
        }),
{
}

/// The master descriptor a state holds, once it was opened.
pub open spec fn held_master(state: PairState) -> Option<i32> {
    match state {
        PairState::Granting { master, .. } => Some(master),
        PairState::Unlocking { master, .. } => Some(master),
        PairState::Naming { master, .. } => Some(master),
        PairState::OpeningSlave { master, .. } => Some(master),
        PairState::Sizing { master, .. } => Some(master),
        PairState::Releasing { master, .. } => Some(master),
        _ => None,
    }
}

/// The descriptor that a call acts on, for the calls that act on the master.
pub open spec fn acted_on(action: PairActionView) -> Option<i32> {
    match action {
        PairActionView::Grant { master } => Some(master),
        PairActionView::Unlock { master } => Some(master),
        PairActionView::QuerySlaveName { master } => Some(master),
        PairActionView::SetWindowSize { master, .. } => Some(master),
        PairActionView::CloseMaster { master } => Some(master),
        _ => None,
    }
}

/// The terminal size a state still has to set.
pub open spec fn pending_size(state: PairState) -> Option<(u16, u16)> {
    match state {
        PairState::Starting { cols, rows } => Some((cols, rows)),
        PairState::Granting { cols, rows, .. } => Some((cols, rows)),
        PairState::Unlocking { cols, rows, .. } => Some((cols, rows)),
        PairState::Naming { cols, rows, .. } => Some((cols, rows)),
        PairState::OpeningSlave { cols, rows, .. } => Some((cols, rows)),
        _ => None,
    }
}

/// The master that `posix_openpt` returned is the one every later call acts
/// on: granting, unlocking, naming, sizing and closing all name it, and it
/// is kept from state to state until the end.
pub proof fn lemma_calls_act_on_opened_master(
    cols: u16,
    rows: u16,
    fd: i32,
    os_error: Seq<char>,
    state: PairState,
    event: PairEventView,
)
    ensures
        fd >= 0 ==> pair_next(
            PairState::Starting { cols, rows },
            PairEventView::Descriptor { fd, os_error },
        ) == (PairState::Granting { master: fd, cols, rows }, PairActionView::Grant { master: fd }),
        pair_accepts(state, event) && held_master(state) is Some ==> {
            let (next, action) = pair_next(state, event);
            &&& acted_on(action) is Some ==> acted_on(action) == held_master(state)
            &&& held_master(next) is Some ==> held_master(next) == held_master(state)
        },
{
}

/// Each call that succeeds leads to the next call of the sequence, on the
/// same master: grant, then unlock, then the name query, then opening the
/// slave by the name found.
pub proof fn lemma_calls_in_order(
    master: i32,
    cols: u16,
    rows: u16,
    code: i32,
    os_error: Seq<char>,
    name: Seq<char>,
)
    requires
        code >= 0,
    ensures
        pair_next(
            PairState::Granting { master, cols, rows },
            PairEventView::Status { code, os_error },
        ) == (PairState::Unlocking { master, cols, rows }, PairActionView::Unlock { master }),
        pair_next(
            PairState::Unlocking { master, cols, rows },
            PairEventView::Status { code, os_error },
        ) == (PairState::Naming { master, cols, rows }, PairActionView::QuerySlaveName { master }),
        pair_next(PairState::Naming { master, cols, rows }, PairEventView::SlaveName(Some(name)))
            == (PairState::OpeningSlave { master, cols, rows }, PairActionView::OpenSlave { name }),
{
}

/// The window size set on the master is the size the sequence was started
/// with, carried unchanged through every call before it.
pub proof fn lemma_size_carried(state: PairState, event: PairEventView)
    requires
        pair_accepts(state, event),
        pending_size(state) is Some,
    ensures
        ({
            let (next, action) = pair_next(state, event);
            &&& pending_size(next) is Some ==> pending_size(next) == pending_size(state)
            &&& (action matches PairActionView::SetWindowSize { cols, rows, .. } ==> Some((
                cols,
                rows,
            )) == pending_size(state))
        }),
{
}

/// What each failure reports: the failing call's name and the error text,
/// after the master was closed where it was open.
pub proof fn lemma_failure_messages(
    master: i32,
    cols: u16,
    rows: u16,
    fd: i32,
    os_error: Seq<char>,
    rejection: Seq<char>,
)
    requires
        fd < 0,
    ensures
        pair_next(PairState::Starting { cols, rows }, PairEventView::Descriptor { fd, os_error })
            == (PairState::Finished, PairActionView::Finish(Err("posix_openpt failed: "@ + os_error))),
        pair_next(
            PairState::Releasing { master, failure: PairFailure::Grant },
            PairEventView::MasterClosed { os_error },
        ).1 == PairActionView::Finish(Err("grantpt failed: "@ + os_error)),
        pair_next(
            PairState::Releasing { master, failure: PairFailure::Unlock },
            PairEventView::MasterClosed { os_error },
        ).1 == PairActionView::Finish(Err("unlockpt failed: "@ + os_error)),
        pair_next(
            PairState::Releasing { master, failure: PairFailure::NoSlaveName },
            PairEventView::MasterClosed { os_error },
        ).1 == PairActionView::Finish(Err("ptsname returned null"@)),
        pair_next(
            PairState::Releasing { master, failure: PairFailure::OpenSlave },
            PairEventView::MasterClosed { os_error },
        ).1 == PairActionView::Finish(Err("open slave pty failed: "@ + os_error)),
        pair_next(
            PairState::OpeningSlave { master, cols, rows },
            PairEventView::NameRejected(rejection),
        ) == (PairState::Finished, PairActionView::Finish(Err("ptsname CString: "@ + rejection))),
{
}

/// A failing call is remembered as that call's failure while the master is
/// closed, so the error reported after the close names the call that failed.
pub proof fn lemma_failures_remember_step(
    master: i32,
    cols: u16,
    rows: u16,
    code: i32,
    fd: i32,
    os_error: Seq<char>,
)
    requires
        code < 0,
        fd < 0,
    ensures
        pair_next(
            PairState::Granting { master, cols, rows },
            PairEventView::Status { code, os_error },
        ).0 == (PairState::Releasing { master, failure: PairFailure::Grant }),
        pair_next(
            PairState::Unlocking { master, cols, rows },
            PairEventView::Status { code, os_error },
        ).0 == (PairState::Releasing { master, failure: PairFailure::Unlock }),
        pair_next(PairState::Naming { master, cols, rows }, PairEventView::SlaveName(None)).0 == (
        PairState::Releasing { master, failure: PairFailure::NoSlaveName }),
        pair_next(
            PairState::OpeningSlave { master, cols, rows },
            PairEventView::Descriptor { fd, os_error },
        ).0 == (PairState::Releasing { master, failure: PairFailure::OpenSlave }),
{
}

} // verus!
