use aspect_reauth::probe::{needs_refresh, probe_request, probe_verdict, ProbeError};
use aspect_reauth::ssh_mux::{SshMux, TempSocket};
use aspect_reauth::sync::{
    check_login, check_push, check_recheck, join_paths, key_name, keyring_selector,
    local_probe_command, login_command, push_command, remote_probe_command, stale_or_forced,
    SyncError,
};

fn strings(v: &[&str]) -> Vec<String> {
    v.iter().map(|s| s.to_string()).collect()
}

fn session(dir: &str) -> SshMux {
    let socket = Some(TempSocket::from_tempdir(dir.to_string()));
    SshMux::new("devbox".to_string(), vec![], socket, true, vec![]).ok().unwrap()
}

#[test]
fn success_is_fresh_whatever_the_output() {
    assert!(matches!(needs_refresh("helper", true, b""), Ok(false)));
    assert!(matches!(
        needs_refresh("helper", true, b"Please run helper login to continue"),
        Ok(false)
    ));
    assert!(matches!(needs_refresh("helper", true, b"fatal"), Ok(false)));
}

#[test]
fn login_request_means_stale() {
    assert!(matches!(
        needs_refresh("helper", false, b"Please run helper login to continue"),
        Ok(true)
    ));
    assert!(matches!(
        needs_refresh("helper", false, b"error:\nPLEASE RUN\n  helper\n  LOGIN now"),
        Ok(true)
    ));
    assert!(matches!(
        needs_refresh(
            "aspect-credential-helper",
            false,
            b"please run 'aspect-credential-helper login'"
        ),
        Ok(true)
    ));
}

#[test]
fn other_failure_is_an_error() {
    match needs_refresh("helper", false, b"connection reset") {
        Err(ProbeError::HelperFailed(out)) => assert_eq!(out, b"connection reset".to_vec()),
        _ => panic!("expected a helper failure"),
    }
    // The helper's name is matched literally, not as a pattern.
    assert!(matches!(
        needs_refresh("a.c", false, b"please run abc login"),
        Err(ProbeError::HelperFailed(_))
    ));
    assert!(matches!(
        needs_refresh("helper", false, b"please run other login"),
        Err(ProbeError::HelperFailed(_))
    ));
}

#[test]
fn login_prompt_escapes_helper_name() {
    assert!(matches!(needs_refresh("h+x", false, b"please run h+x login"), Ok(true)));
    assert!(matches!(
        needs_refresh("h+x", false, b"please run hhx login"),
        Err(ProbeError::HelperFailed(_))
    ));
}

#[test]
fn verdict_from_given_values() {
    assert!(matches!(probe_verdict(true, None, b"x"), Ok(false)));
    assert!(matches!(probe_verdict(false, Some(true), b"x"), Ok(true)));
    assert!(matches!(probe_verdict(false, None, b"x"), Err(ProbeError::BadPattern)));
    match probe_verdict(false, Some(false), b"bad") {
        Err(ProbeError::HelperFailed(out)) => assert_eq!(out, b"bad".to_vec()),
        _ => panic!("expected a helper failure"),
    }
}

#[test]
fn probe_request_line() {
    assert_eq!(probe_request("x.example.com"), "{\"uri\":\"https://x.example.com\"}\n");
}

#[test]
fn key_name_and_keyring() {
    assert_eq!(key_name("x.example.com"), "keyring-rs:x.example.com@AspectWorkflows");
    assert_eq!(keyring_selector(false), "@u");
    assert_eq!(keyring_selector(true), "@s");
}

#[test]
fn command_lines_of_a_run() {
    let mux = session("/tmp/d");
    let push = push_command(&mux, "x.example.com", false);
    assert_eq!(
        push[push.len() - 5..].to_vec(),
        strings(&["keyctl", "padd", "user", "keyring-rs:x.example.com@AspectWorkflows", "@u"])
    );
    assert_eq!(push[1], "-S");
    let probe = remote_probe_command(&mux, "helper");
    assert_eq!(probe[probe.len() - 3..].to_vec(), strings(&["devbox", "helper", "get"]));
    assert_eq!(local_probe_command("helper"), strings(&["helper", "get"]));
    assert_eq!(
        login_command("helper", "x.example.com"),
        strings(&["helper", "login", "x.example.com"])
    );
}

#[test]
fn forced_side_is_stale() {
    assert!(matches!(stale_or_forced(true, None), Ok(true)));
    assert!(matches!(stale_or_forced(true, Some(Ok(false))), Ok(true)));
    assert!(matches!(stale_or_forced(false, Some(Ok(false))), Ok(false)));
    assert!(matches!(stale_or_forced(false, Some(Ok(true))), Ok(true)));
    assert!(matches!(stale_or_forced(false, None), Ok(false)));
    assert!(matches!(
        stale_or_forced(false, Some(Err(ProbeError::BadPattern))),
        Err(ProbeError::BadPattern)
    ));
}

#[test]
fn local_failure_is_reported_first() {
    let r = join_paths(Err(SyncError::Login), Err(SyncError::StillStale));
    assert!(matches!(r, Err(SyncError::Login)));
    let r = join_paths(Ok(false), Err(SyncError::RemoteProbe(ProbeError::BadPattern)));
    assert!(matches!(r, Err(SyncError::RemoteProbe(ProbeError::BadPattern))));
    assert!(matches!(join_paths(Ok(false), Ok(false)), Ok(false)));
    assert!(matches!(join_paths(Ok(true), Ok(false)), Ok(true)));
    assert!(matches!(join_paths(Ok(false), Ok(true)), Ok(true)));
}

#[test]
fn login_push_and_recheck_outcomes() {
    assert!(check_login(true).is_ok());
    assert!(matches!(check_login(false), Err(SyncError::Login)));
    assert!(check_push(true, b"").is_ok());
    match check_push(false, b"permission denied") {
        Err(SyncError::RemoteSync(out)) => assert_eq!(out, b"permission denied".to_vec()),
        _ => panic!("expected a sync failure"),
    }
    assert!(check_recheck(Ok(false)).is_ok());
    assert!(matches!(check_recheck(Ok(true)), Err(SyncError::StillStale)));
    assert!(matches!(
        check_recheck(Err(ProbeError::BadPattern)),
        Err(SyncError::RemoteProbe(ProbeError::BadPattern))
    ));
}

#[test]
fn run_with_fresh_credential_pushes_nothing() {
    let local = stale_or_forced(false, Some(needs_refresh("helper", true, b""))).unwrap();
    let remote = stale_or_forced(false, Some(needs_refresh("helper", true, b""))).unwrap();
    assert!(!local);
    assert!(matches!(join_paths(Ok(local), Ok(remote)), Ok(false)));
}

#[test]
fn run_with_login_request_logs_in_and_pushes() {
    let out = b"Please run helper login to continue";
    let local = stale_or_forced(false, Some(needs_refresh("helper", false, out))).unwrap();
    assert!(local);
    assert!(check_login(true).is_ok());
    let remote = stale_or_forced(false, Some(needs_refresh("helper", false, out))).unwrap();
    assert!(matches!(join_paths(Ok(local), Ok(remote)), Ok(true)));
    assert!(check_push(true, b"").is_ok());
}

#[test]
fn run_with_refused_push_fails_and_tears_down() {
    let mut mux = session("/tmp/aspect-reauth-x");
    let r = check_push(false, b"permission denied");
    assert!(matches!(r, Err(SyncError::RemoteSync(ref out)) if out == b"permission denied"));
    let teardown = mux.cleanup().unwrap();
    assert_eq!(teardown.remove_dir, "/tmp/aspect-reauth-x");
    assert!(mux.cleanup().is_none());
}
