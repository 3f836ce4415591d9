use terax::pty_pair::{pair_accepts_event, pair_start, pair_step, PairAction, PairEvent, PairState};

fn err(s: &str) -> String {
    s.to_string()
}

fn fd(fd: i32) -> PairEvent {
    PairEvent::Descriptor { fd, os_error: err("Permission denied (os error 13)") }
}

fn status(code: i32) -> PairEvent {
    PairEvent::Status { code, os_error: err("No such device (os error 19)") }
}

fn run(cols: u16, rows: u16, events: Vec<PairEvent>) -> Vec<PairAction> {
    let (mut state, action) = pair_start(cols, rows);
    let mut actions = vec![action];
    for e in events {
        assert!(pair_accepts_event(&state, &e));
        let (s, a) = pair_step(state, e);
        state = s;
        actions.push(a);
    }
    actions
}

#[test]
fn successful_sequence_reports_both_descriptors() {
    let actions = run(
        80,
        24,
        vec![
            fd(5),
            status(0),
            status(0),
            PairEvent::SlaveName(Some(err("/dev/pts/3"))),
            fd(6),
            PairEvent::WindowSizeSet,
        ],
    );
    assert_eq!(
        actions,
        vec![
            PairAction::OpenMaster,
            PairAction::Grant { master: 5 },
            PairAction::Unlock { master: 5 },
            PairAction::QuerySlaveName { master: 5 },
            PairAction::OpenSlave { name: err("/dev/pts/3") },
            PairAction::SetWindowSize { master: 5, cols: 80, rows: 24 },
            PairAction::Finish(Ok((5, 6))),
        ]
    );
}

#[test]
fn master_open_failure_is_reported_directly() {
    let actions = run(80, 24, vec![fd(-1)]);
    assert_eq!(
        actions.last(),
        Some(&PairAction::Finish(Err(err("posix_openpt failed: Permission denied (os error 13)"))))
    );
}

#[test]
fn grant_failure_closes_master_first() {
    let actions = run(
        80,
        24,
        vec![fd(5), status(-1), PairEvent::MasterClosed { os_error: err("EACCES") }],
    );
    assert_eq!(actions[2], PairAction::CloseMaster { master: 5 });
    assert_eq!(actions[3], PairAction::Finish(Err(err("grantpt failed: EACCES"))));
}

#[test]
fn unlock_failure_closes_master_first() {
    let actions = run(
        80,
        24,
        vec![fd(5), status(0), status(-1), PairEvent::MasterClosed { os_error: err("EINVAL") }],
    );
    assert_eq!(actions[3], PairAction::CloseMaster { master: 5 });
    assert_eq!(actions[4], PairAction::Finish(Err(err("unlockpt failed: EINVAL"))));
}

#[test]
fn missing_slave_name_closes_master_first() {
    let actions = run(
        80,
        24,
        vec![
            fd(5),
            status(0),
            status(0),
            PairEvent::SlaveName(None),
            PairEvent::MasterClosed { os_error: err("x") },
        ],
    );
    assert_eq!(actions[4], PairAction::CloseMaster { master: 5 });
    assert_eq!(actions[5], PairAction::Finish(Err(err("ptsname returned null"))));
}

#[test]
fn rejected_slave_name_is_reported_without_close() {
    let actions = run(
        80,
        24,
        vec![
            fd(5),
            status(0),
            status(0),
            PairEvent::SlaveName(Some(err("/dev/pts/\0"))),
            PairEvent::NameRejected(err("nul byte found in provided data at position: 9")),
        ],
    );
    assert_eq!(
        actions[5],
        PairAction::Finish(Err(err(
            "ptsname CString: nul byte found in provided data at position: 9"
        )))
    );
}

#[test]
fn slave_open_failure_closes_master_first() {
    let actions = run(
        80,
        24,
        vec![
            fd(5),
            status(0),
            status(0),
            PairEvent::SlaveName(Some(err("/dev/pts/3"))),
            fd(-1),
            PairEvent::MasterClosed { os_error: err("ENOENT") },
        ],
    );
    assert_eq!(actions[5], PairAction::CloseMaster { master: 5 });
    assert_eq!(actions[6], PairAction::Finish(Err(err("open slave pty failed: ENOENT"))));
}

#[test]
fn events_must_fit_the_call() {
    let (state, _) = pair_start(1, 1);
    assert!(!pair_accepts_event(&state, &PairEvent::WindowSizeSet));
    assert!(!pair_accepts_event(&PairState::Finished, &fd(3)));
}
