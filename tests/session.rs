use aspect_reauth::config::{infer_create_socket, resolve_create_socket};
use aspect_reauth::ssh_mux::{CreateSocket, SshMux, TempSocket};

fn strings(v: &[&str]) -> Vec<String> {
    v.iter().map(|s| s.to_string()).collect()
}

const DUMP_AUTO: &str = "user dev\ncontrolmaster auto\ncontrolpersist 600\n";
const DUMP_NO: &str = "user dev\ncontrolmaster false\n";

#[test]
fn parse_policy_values() {
    assert_eq!(CreateSocket::parse("infer"), Some(CreateSocket::Infer));
    for v in ["y", "yes", "t", "true", "on", "1"] {
        assert_eq!(CreateSocket::parse(v), Some(CreateSocket::Specify(true)));
    }
    for v in ["n", "no", "f", "false", "off", "0"] {
        assert_eq!(CreateSocket::parse(v), Some(CreateSocket::Specify(false)));
    }
    assert_eq!(CreateSocket::parse("maybe"), None);
    assert_eq!(CreateSocket::parse("TRUE"), None);
    let err: Result<CreateSocket, String> = "maybe".parse();
    assert_eq!(err, Err("unknown value maybe".to_string()));
}

#[test]
fn policy_into_option_bool() {
    assert_eq!(CreateSocket::Infer.into_option_bool(), None);
    assert_eq!(CreateSocket::Specify(true).into_option_bool(), Some(true));
    assert_eq!(CreateSocket::Specify(false).into_option_bool(), Some(false));
}

#[test]
fn explicit_policy_ignores_config() {
    for config in [Some(DUMP_AUTO), Some(DUMP_NO), None] {
        assert!(resolve_create_socket(CreateSocket::Specify(true), config));
        assert!(!resolve_create_socket(CreateSocket::Specify(false), config));
    }
}

#[test]
fn inferred_policy_follows_config() {
    assert!(!resolve_create_socket(CreateSocket::Infer, Some(DUMP_AUTO)));
    assert!(resolve_create_socket(CreateSocket::Infer, Some(DUMP_NO)));
    assert!(resolve_create_socket(CreateSocket::Infer, None));
    assert!(resolve_create_socket(CreateSocket::Infer, Some("")));
}

#[test]
fn infer_reads_whole_lines() {
    assert!(!infer_create_socket(Some("controlmaster auto")));
    assert!(!infer_create_socket(Some("a b\r\ncontrolmaster auto\r\nx y\r\n")));
    assert!(infer_create_socket(Some(" controlmaster auto\n")));
    assert!(infer_create_socket(Some("controlmaster autoask\n")));
    assert!(infer_create_socket(Some("xcontrolmaster auto\n")));
    assert!(infer_create_socket(Some("controlmaster auto\rx\n")));
}

#[test]
fn temp_socket_path() {
    let s = TempSocket::from_tempdir("/tmp/aspect-reauth-abc".to_string());
    assert_eq!(s.dir(), "/tmp/aspect-reauth-abc");
    assert_eq!(s.as_ref(), "/tmp/aspect-reauth-abc/sock");
}

#[test]
fn master_command_with_socket() {
    let args = strings(&["-p", "23"]);
    let socket = Some(TempSocket::from_tempdir("/tmp/d".to_string()));
    let cmd = SshMux::master_command("devbox", &args, &socket);
    assert_eq!(
        cmd,
        strings(&[
            "ssh",
            "-p",
            "23",
            "-xMTS",
            "/tmp/d/sock",
            "-oControlPersist=yes",
            "-oPermitLocalCommand=no",
            "-oClearAllForwardings=yes",
            "-oRemoteCommand=none",
            "-oForwardAgent=no",
            "-oBatchMode=yes",
            "--",
            "devbox",
            "true",
        ])
    );
}

#[test]
fn master_command_without_socket() {
    let cmd = SshMux::master_command("devbox", &strings(&["-A"]), &None);
    assert_eq!(cmd, strings(&["ssh", "-A", "--", "devbox", "true"]));
}

#[test]
fn command_through_socket() {
    let socket = Some(TempSocket::from_tempdir("/tmp/d".to_string()));
    let mux = SshMux::new("devbox".to_string(), vec![], socket, true, vec![]).ok().unwrap();
    assert_eq!(mux.host(), "devbox");
    assert_eq!(
        mux.command("keyctl"),
        strings(&[
            "ssh",
            "-S",
            "/tmp/d/sock",
            "-xT",
            "-oPermitLocalCommand=no",
            "-oClearAllForwardings=yes",
            "-oRemoteCommand=none",
            "-oForwardAgent=no",
            "-oBatchMode=yes",
            "--",
            "devbox",
            "keyctl",
        ])
    );
}

#[test]
fn command_without_socket() {
    let mux = SshMux::new("h".to_string(), strings(&["-v"]), None, true, vec![]).ok().unwrap();
    assert_eq!(
        mux.command("true"),
        strings(&[
            "ssh",
            "-v",
            "-xT",
            "-oPermitLocalCommand=no",
            "-oClearAllForwardings=yes",
            "-oRemoteCommand=none",
            "-oForwardAgent=no",
            "-oBatchMode=yes",
            "--",
            "h",
            "true",
        ])
    );
}

#[test]
fn failed_setup_hands_socket_back() {
    let socket = Some(TempSocket::from_tempdir("/tmp/d".to_string()));
    let err = match SshMux::new("devbox".to_string(), vec![], socket, false, b"refused".to_vec()) {
        Ok(_) => panic!("setup failure must be an error"),
        Err(e) => e,
    };
    assert_eq!(err.host, "devbox");
    assert_eq!(err.stderr, b"refused".to_vec());
    assert_eq!(err.socket.unwrap().dir(), "/tmp/d");
}

#[test]
fn cleanup_twice_tears_down_once() {
    let socket = Some(TempSocket::from_tempdir("/tmp/d".to_string()));
    let mut mux = SshMux::new("devbox".to_string(), strings(&["-q"]), socket, true, vec![])
        .ok()
        .unwrap();
    let first = mux.cleanup().unwrap();
    assert_eq!(
        first.exit_command,
        strings(&["ssh", "-q", "-S", "/tmp/d/sock", "-Oexit", "--", "devbox"])
    );
    assert_eq!(first.remove_dir, "/tmp/d");
    assert!(mux.cleanup().is_none());
    assert_eq!(mux.command("x")[1], "-q");
    assert_eq!(mux.command("x")[2], "-xT");
}

#[test]
fn cleanup_without_socket_does_nothing() {
    let mut mux = SshMux::new("devbox".to_string(), vec![], None, true, vec![]).ok().unwrap();
    assert!(mux.cleanup().is_none());
    assert!(mux.cleanup().is_none());
}
