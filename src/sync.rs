use crate::argv::{argv_view, push_arg};
use crate::probe::ProbeError;
use crate::ssh_mux::SshMux;
use vstd::prelude::*;

verus! {

/// Why a sync run failed.
#[derive(Debug)]
pub enum SyncError {
    /// The local credential probe gave no verdict.
    LocalProbe(ProbeError),
    /// The probe through the session gave no verdict.
    RemoteProbe(ProbeError),
    /// The helper's `login` failed.
    Login,
    /// `keyctl padd` failed on the host; holds its error output.
    RemoteSync(Vec<u8>),
    /// The host still reports a stale credential after the push.
    StillStale,
    /// A command could not be run or waited for; holds what went wrong.
    Spawn(String),
}

/// The name under which the credential is stored in the host's kernel keyring.
pub open spec fn key_name_of(remote: Seq<char>) -> Seq<char> {
    "keyring-rs:"@ + remote + "@AspectWorkflows"@
}

/// The kernel keyring that receives the credential: the session's or the user's.
pub open spec fn keyring_of(session_keyring: bool) -> Seq<char> {
    if session_keyring {
        "@s"@
    } else {
        "@u"@
    }
}

/// The name under which the credential for `remote` is stored on the host.
pub fn key_name(remote: &str) -> (r: String)
    ensures
        r@ == key_name_of(remote@),
{
    let mut r = String::from_str("keyring-rs:");
    r.append(remote);
    r.append("@AspectWorkflows");
    r
}

/// The keyring selector given to `keyctl`.
pub fn keyring_selector(session_keyring: bool) -> (r: &'static str)
    ensures
        r@ == keyring_of(session_keyring),
{
    if session_keyring {
        "@s"
    } else {
        "@u"
    }
}

/// The command line that stores the credential for `remote` on the host; the credential goes to
/// its standard input.
pub fn push_command(mux: &SshMux, remote: &str, session_keyring: bool) -> (r: Vec<String>)
    ensures
        argv_view(r@) == mux@.command_line("keyctl"@) + seq![
            "padd"@,
            "user"@,
            key_name_of(remote@),
            keyring_of(session_keyring),
        ],
{
    let mut r = mux.command("keyctl");
    let ghost before = argv_view(r@);
    let name = key_name(remote);
    push_arg(&mut r, "padd");
    push_arg(&mut r, "user");
    push_arg(&mut r, name.as_str());
    push_arg(&mut r, keyring_selector(session_keyring));
    assert(argv_view(r@) =~= before + seq![
        "padd"@,
        "user"@,
        key_name_of(remote@),
        keyring_of(session_keyring),
    ]);
    r
}

/// The command line that probes the credential through the session with the helper's `get`.
pub fn remote_probe_command(mux: &SshMux, helper: &str) -> (r: Vec<String>)
    ensures
        argv_view(r@) == mux@.command_line(helper@).push("get"@),
{
    let mut r = mux.command(helper);
    push_arg(&mut r, "get");
    r
}

/// The command line that probes the local credential with the helper's `get`.
pub fn local_probe_command(helper: &str) -> (r: Vec<String>)
    ensures
        argv_view(r@) == seq![helper@, "get"@],
{
    let mut r: Vec<String> = Vec::new();
    push_arg(&mut r, helper);
    push_arg(&mut r, "get");
    assert(argv_view(r@) =~= seq![helper@, "get"@]);
    r
}

/// The command line that logs in to `remote` with the helper.
pub fn login_command(helper: &str, remote: &str) -> (r: Vec<String>)
    ensures
        argv_view(r@) == seq![helper@, "login"@, remote@],
{
    let mut r: Vec<String> = Vec::new();
    push_arg(&mut r, helper);
    push_arg(&mut r, "login");
    push_arg(&mut r, remote);
    assert(argv_view(r@) =~= seq![helper@, "login"@, remote@]);
    r
}

/// Whether one side's credential is to be refreshed: always where forced, else as its probe
/// says. A side neither forced nor probed is taken as fresh.
pub fn stale_or_forced(forced: bool, probe: Option<Result<bool, ProbeError>>) -> (r: Result<
    bool,
    ProbeError,
>)
    ensures
        forced ==> r == Ok::<bool, ProbeError>(true),
        !forced ==> (probe matches Some(p) ==> r == p),
        !forced && probe is None ==> r == Ok::<bool, ProbeError>(false),
{
    if forced {
        Ok(true)
    } else {
        match probe {
            Some(p) => p,
            None => Ok(false),
        }
    }
}

/// The outcome of the local login, from whether it exited successfully.
pub fn check_login(exit_ok: bool) -> (r: Result<(), SyncError>)
    ensures
        exit_ok <==> r is Ok,
        r is Err ==> r == Err::<(), SyncError>(SyncError::Login),
{
    if exit_ok {
        Ok(())
    } else {
        Err(SyncError::Login)
    }
}

/// The outcome of the push, from whether `keyctl padd` exited successfully and its error output.
pub fn check_push(exit_ok: bool, stderr: &[u8]) -> (r: Result<(), SyncError>)
    ensures
        exit_ok <==> r is Ok,
        r matches Err(e) ==> e matches SyncError::RemoteSync(t) && t@ == stderr@,
{
    if exit_ok {
        Ok(())
    } else {
        Err(SyncError::RemoteSync(vstd::slice::slice_to_vec(stderr)))
    }
}

/// Joins the two paths of a run: the local one (whether it logged in) and the one through the
/// session (whether the host's credential is stale). Both have resolved; a local failure is
/// reported first, as it is usually the cause. The credential is pushed where the host's is
/// stale or a new one was made.
pub fn join_paths(local: Result<bool, SyncError>, remote: Result<bool, SyncError>) -> (r: Result<
    bool,
    SyncError,
>)
    ensures
        local is Err ==> r == local,
        local is Ok && remote is Err ==> r == remote,
        local matches Ok(logged_in) ==> (remote matches Ok(stale) ==> r == Ok::<bool, SyncError>(
            logged_in || stale,
        )),
{
    match local {
        Err(e) => Err(e),
        Ok(logged_in) => match remote {
            Err(e) => Err(e),
            Ok(stale) => Ok(logged_in || stale),
        },
    }
}

/// The outcome of the one recheck after a push: a host that still reports a stale credential
/// fails the run rather than being retried.
pub fn check_recheck(probe: Result<bool, ProbeError>) -> (r: Result<(), SyncError>)
    ensures
        probe == Ok::<bool, ProbeError>(false) <==> r is Ok,
        probe == Ok::<bool, ProbeError>(true) ==> r == Err::<(), SyncError>(SyncError::StillStale),
        probe is Err ==> r matches Err(SyncError::RemoteProbe(_)),
{
    match probe {
        Ok(false) => Ok(()),
        Ok(true) => Err(SyncError::StillStale),
        Err(e) => Err(SyncError::RemoteProbe(e)),
    }
}

} // verus!
