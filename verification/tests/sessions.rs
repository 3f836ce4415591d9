use terax::pty::{inner_cwd, plan_launch, proot_args, proot_env, resize_outcome, PtyState, Session};

fn session(fd: i32, pid: i32, writer: &str) -> Session<String> {
    Session { master_fd: fd, child_pid: pid, writer: writer.to_string() }
}

#[test]
fn launch_refused_without_proot() {
    let r = plan_launch(false, true, None);
    assert_eq!(
        r.err(),
        Some("Bootstrap not complete. Call bootstrap_android from the frontend first.".to_string())
    );
    let r = plan_launch(false, false, None);
    assert_eq!(
        r.err(),
        Some("Bootstrap not complete. Call bootstrap_android from the frontend first.".to_string())
    );
}

#[test]
fn launch_refused_without_rootfs() {
    let r = plan_launch(true, false, Some("/tmp".to_string()));
    assert_eq!(r.err(), Some("Rootfs not found. Bootstrap may have failed.".to_string()));
}

#[test]
fn launch_plan_runs_login_shell_in_rootfs() {
    let plan = plan_launch(true, true, Some("/home/me".to_string())).ok().unwrap();
    assert_eq!(plan.program, "/data/data/app.crynta.terax/files/proot");
    let expected: Vec<String> = [
        "-0",
        "-r",
        "/data/data/app.crynta.terax/files/rootfs",
        "-b",
        "/dev",
        "-b",
        "/proc",
        "-b",
        "/sys",
        "-b",
        "/data:/data",
        "-w",
        "/home/me",
        "/bin/sh",
        "-l",
    ]
    .iter()
    .map(|s| s.to_string())
    .collect();
    assert_eq!(plan.args, expected);
    assert_eq!(plan.env, proot_env());
}

#[test]
fn shell_environment() {
    let env = proot_env();
    let pairs: Vec<(&str, &str)> = env.iter().map(|(k, v)| (k.as_str(), v.as_str())).collect();
    assert_eq!(
        pairs,
        vec![
            ("TERM", "xterm-256color"),
            ("COLORTERM", "truecolor"),
            ("TERAX_TERMINAL", "1"),
            ("HOME", "/root"),
            ("USER", "root"),
            ("PATH", "/usr/local/sbin:/usr/local/bin:/usr/sbin:/usr/bin:/sbin:/bin"),
        ]
    );
}

#[test]
fn cwd_defaults_to_root_home() {
    assert_eq!(inner_cwd(None), "/root");
    assert_eq!(inner_cwd(Some(String::new())), "/root");
    assert_eq!(inner_cwd(Some("/srv".to_string())), "/srv");
}

#[test]
fn proot_args_place_rootfs_and_cwd() {
    let args = proot_args("/r", "/w");
    assert_eq!(args[2], "/r");
    assert_eq!(args[12], "/w");
    assert_eq!(args.len(), 15);
}

#[test]
fn ids_start_at_one_and_increase() {
    let mut state: PtyState<String> = PtyState::default();
    let (a, displaced_a) = state.open_session(session(10, 100, "w1"));
    let (b, displaced_b) = state.open_session(session(11, 101, "w2"));
    assert_eq!(a, 1);
    assert_eq!(b, 2);
    assert!(displaced_a.is_none());
    assert!(displaced_b.is_none());
}

#[test]
fn open_then_write_and_resize_find_session() {
    let mut state: PtyState<String> = PtyState::default();
    let (id, _) = state.open_session(session(10, 100, "w1"));
    assert_eq!(state.write_target(id).ok().map(|w| w.clone()), Some("w1".to_string()));
    assert_eq!(state.resize_target(id), Ok((10, 100)));
}

#[test]
fn unknown_session_is_reported() {
    let state: PtyState<String> = PtyState::default();
    assert_eq!(state.write_target(7).err(), Some("no session".to_string()));
    assert_eq!(state.resize_target(7), Err("no session".to_string()));
}

#[test]
fn close_removes_only_that_session() {
    let mut state: PtyState<String> = PtyState::default();
    let (a, _) = state.open_session(session(10, 100, "w1"));
    let (b, _) = state.open_session(session(11, 101, "w2"));
    let closed = state.close_session(a).unwrap();
    assert_eq!(closed.master_fd, 10);
    assert_eq!(closed.child_pid, 100);
    assert_eq!(state.write_target(a).err(), Some("no session".to_string()));
    assert_eq!(state.resize_target(b), Ok((11, 101)));
}

#[test]
fn close_unknown_is_harmless() {
    let mut state: PtyState<String> = PtyState::default();
    let (a, _) = state.open_session(session(10, 100, "w1"));
    assert!(state.close_session(a + 5).is_none());
    assert_eq!(state.resize_target(a), Ok((10, 100)));
    let (b, _) = state.open_session(session(12, 102, "w3"));
    assert_eq!(b, 2);
}

#[test]
fn closed_ids_are_not_reused() {
    let mut state: PtyState<String> = PtyState::default();
    let (a, _) = state.open_session(session(10, 100, "w1"));
    state.close_session(a);
    let (b, _) = state.open_session(session(11, 101, "w2"));
    assert_ne!(a, b);
}

#[test]
fn resize_result() {
    assert_eq!(resize_outcome(0, "ignored"), Ok(()));
    assert_eq!(
        resize_outcome(-1, "Bad file descriptor (os error 9)"),
        Err("TIOCSWINSZ failed: Bad file descriptor (os error 9)".to_string())
    );
}
