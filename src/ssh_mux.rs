use crate::argv::{argv_view, push_all, push_arg};
use vstd::prelude::*;

verus! {

/// How a session chooses between a private control socket and the host's own multiplexing.
#[derive(Clone, Copy, Debug, PartialEq, Eq, Structural)]
pub enum CreateSocket {
    /// Look at the host's effective SSH configuration and decide from it.
    Infer,
    /// Create a private socket (`true`) or never create one (`false`).
    Specify(bool),
}

impl CreateSocket {
    /// The explicit choice, or `None` where it is to be inferred.
    pub fn into_option_bool(self) -> (r: Option<bool>)
        ensures
            r == (match self {
                CreateSocket::Infer => None,
                CreateSocket::Specify(b) => Some(b),
            }),
    {
        match self {
            CreateSocket::Infer => None,
            CreateSocket::Specify(b) => Some(b),
        }
    }
}


/// A socket path inside a private temporary directory: `<dir>/sock`.
///
/// The directory itself is made by the caller (it is file-system work); this value records it
/// and names the socket in it. Removing the directory is handed back by [`SshMux::cleanup`].
#[derive(Debug)]
pub struct TempSocket {
    dir: String,
    path: String,
}

/// The name of the socket file inside its directory.
pub open spec fn socket_in(dir: Seq<char>) -> Seq<char> {
    dir + "/sock"@
}

impl TempSocket {
    #[verifier::type_invariant]
    spec fn inv(&self) -> bool {
        self.path@ == socket_in(self.dir@)
    }

    /// The directory that holds the socket.
    pub closed spec fn dir_view(&self) -> Seq<char> {
        self.dir@
    }

    /// Records `dir` as the socket's directory; the socket is `<dir>/sock`.
    pub fn from_tempdir(dir: String) -> (r: TempSocket)
        ensures
            r.dir_view() == dir@,
    {
        let mut path = dir.clone();
        path.append("/sock");
        TempSocket { dir, path }
    }

    /// The directory that holds the socket.
    pub fn dir(&self) -> (r: &str)
        ensures
            r@ == self.dir_view(),
    {
        self.dir.as_str()
    }

    /// The socket's path, `<dir>/sock`.
    pub fn as_ref(&self) -> (r: &str)
        ensures
            r@ == socket_in(self.dir_view()),
    {
        proof {
            use_type_invariant(self);
        }
        self.path.as_str()
    }
}


/// What a session is, as the contracts see it.
pub ghost struct SessionView {
    pub host: Seq<char>,
    pub ssh_args: Seq<Seq<char>>,
    /// The directory of the session's own control socket, while it has one.
    pub socket_dir: Option<Seq<char>>,
}

impl SessionView {
    /// The session after its teardown: it no longer owns a socket.
    pub open spec fn closed(self) -> SessionView {
        SessionView { socket_dir: None, ..self }
    }

    /// The command line that stops the session's control master and the directory to remove,
    /// where the session owns a socket.
    pub open spec fn teardown(self) -> Option<(Seq<Seq<char>>, Seq<char>)> {
        match self.socket_dir {
            Some(d) => Some((exit_line(self.ssh_args, socket_in(d), self.host), d)),
            None => None,
        }
    }

    /// The command line that runs `command` on the host through this session.
    pub open spec fn command_line(self, command: Seq<char>) -> Seq<Seq<char>> {
        seq!["ssh"@] + self.ssh_args + socket_option(self.socket_dir) + seq!["-xT"@]
            + batch_options() + seq!["--"@, self.host, command]
    }
}

/// The options that keep a remote command from doing anything but run.
pub open spec fn batch_options() -> Seq<Seq<char>> {
    seq![
        "-oPermitLocalCommand=no"@,
        "-oClearAllForwardings=yes"@,
        "-oRemoteCommand=none"@,
        "-oForwardAgent=no"@,
        "-oBatchMode=yes"@,
    ]
}

/// `-S <socket>` where there is a private socket, nothing otherwise.
pub open spec fn socket_option(socket_dir: Option<Seq<char>>) -> Seq<Seq<char>> {
    match socket_dir {
        Some(d) => seq!["-S"@, socket_in(d)],
        None => seq![],
    }
}

/// The command line that sets a session up: with a private socket it starts a persistent
/// control master on it, else it opens one ordinary connection.
pub open spec fn master_line(
    ssh_args: Seq<Seq<char>>,
    socket_dir: Option<Seq<char>>,
    host: Seq<char>,
) -> Seq<Seq<char>> {
    seq!["ssh"@] + ssh_args + match socket_dir {
        Some(d) => seq!["-xMTS"@, socket_in(d), "-oControlPersist=yes"@] + batch_options(),
        None => seq![],
    } + seq!["--"@, host, "true"@]
}

/// The command line that tells the control master on `socket` to exit.
pub open spec fn exit_line(ssh_args: Seq<Seq<char>>, socket: Seq<char>, host: Seq<char>) -> Seq<
    Seq<char>,
> {
    seq!["ssh"@] + ssh_args + seq!["-S"@, socket, "-Oexit"@, "--"@, host]
}

/// The directory of an optional socket.
pub open spec fn socket_dir_of(socket: Option<TempSocket>) -> Option<Seq<char>> {
    match socket {
        Some(s) => Some(s.dir_view()),
        None => None,
    }
}

/// What is left to undo of a session: the command that stops its control master and the
/// private directory to remove.
#[derive(Debug)]
pub struct Teardown {
    pub exit_command: Vec<String>,
    pub remove_dir: String,
}

/// The session could not be set up.
#[derive(Debug)]
pub struct ConnectionError {
    pub host: String,
    /// What the setup command wrote to its standard error.
    pub stderr: Vec<u8>,
    /// The private socket that had been made for the session; its directory is to be removed.
    pub socket: Option<TempSocket>,
}

/// A batched SSH command multiplexer.
///
/// It passes `ssh` a set of restrictive options fit for batch use, and, where it owns a private
/// control socket, sends every command through the one control master on it.
pub struct SshMux {
    host: String,
    ssh_args: Vec<String>,
    socket: Option<TempSocket>,
}

impl View for SshMux {
    type V = SessionView;

    closed spec fn view(&self) -> SessionView {
        SessionView {
            host: self.host@,
            ssh_args: argv_view(self.ssh_args@),
            socket_dir: socket_dir_of(self.socket),
        }
    }
}

/// Appends the restrictive options of a batch command.
fn push_batch_options(v: &mut Vec<String>)
    ensures
        argv_view(final(v)@) == argv_view(old(v)@) + batch_options(),
{
    let ghost v0 = argv_view(v@);
    push_arg(v, "-oPermitLocalCommand=no");
    push_arg(v, "-oClearAllForwardings=yes");
    push_arg(v, "-oRemoteCommand=none");
    push_arg(v, "-oForwardAgent=no");
    push_arg(v, "-oBatchMode=yes");
    assert(argv_view(v@) =~= v0 + batch_options());
}

impl SshMux {
    /// The command line that sets up a session for `host`; see [`master_line`].
    pub fn master_command(host: &str, ssh_args: &Vec<String>, socket: &Option<TempSocket>) -> (r:
        Vec<String>)
        ensures
            argv_view(r@) == master_line(argv_view(ssh_args@), socket_dir_of(*socket), host@),
    {
        let mut r: Vec<String> = Vec::new();
        push_arg(&mut r, "ssh");
        push_all(&mut r, ssh_args);
        let ghost before = argv_view(r@);
        match socket {
            Some(s) => {
                push_arg(&mut r, "-xMTS");
                push_arg(&mut r, s.as_ref());
                push_arg(&mut r, "-oControlPersist=yes");
                push_batch_options(&mut r);
                assert(argv_view(r@) =~= before + (seq!["-xMTS"@, socket_in(s.dir_view()), "-oControlPersist=yes"@]
                    + batch_options()));
            },
            None => {
                assert(argv_view(r@) =~= before + seq![]);
            },
        }
        let ghost middle = argv_view(r@);
        push_arg(&mut r, "--");
        push_arg(&mut r, host);
        push_arg(&mut r, "true");
        assert(argv_view(r@) =~= middle + seq!["--"@, host@, "true"@]);
        assert(argv_view(r@) =~= master_line(argv_view(ssh_args@), socket_dir_of(*socket), host@));
        r
    }

    /// The session, once its setup command has run: `master_ok` tells whether it succeeded and
    /// `master_stderr` is what it wrote to standard error. A failed setup gives the
    /// [`ConnectionError`], which hands the private socket back for removal.
    pub fn new(
        host: String,
        ssh_args: Vec<String>,
        socket: Option<TempSocket>,
        master_ok: bool,
        master_stderr: Vec<u8>,
    ) -> (r: Result<SshMux, ConnectionError>)
        ensures
            master_ok <==> r is Ok,
            r matches Ok(m) ==> m@ == (SessionView {
                host: host@,
                ssh_args: argv_view(ssh_args@),
                socket_dir: socket_dir_of(socket),
            }),
            r matches Err(e) ==> e.host@ == host@ && e.stderr@ == master_stderr@
                && socket_dir_of(e.socket) == socket_dir_of(socket),
    {
        if master_ok {
            Ok(SshMux { host, ssh_args, socket })
        } else {
            Err(ConnectionError { host, stderr: master_stderr, socket })
        }
    }

    /// The host of the session.
    pub fn host(&self) -> (r: &str)
        ensures
            r@ == self@.host,
    {
        self.host.as_str()
    }

    /// The command line that runs `command` on the host through this session.
    pub fn command(&self, command: &str) -> (r: Vec<String>)
        ensures
            argv_view(r@) == self@.command_line(command@),
    {
        let mut r: Vec<String> = Vec::new();
        push_arg(&mut r, "ssh");
        push_all(&mut r, &self.ssh_args);
        let ghost before = argv_view(r@);
        match &self.socket {
            Some(s) => {
                push_arg(&mut r, "-S");
                push_arg(&mut r, s.as_ref());
                assert(argv_view(r@) =~= before + socket_option(self@.socket_dir));
            },
            None => {
                assert(argv_view(r@) =~= before + socket_option(self@.socket_dir));
            },
        }
        push_arg(&mut r, "-xT");
        push_batch_options(&mut r);
        let ghost middle = argv_view(r@);
        push_arg(&mut r, "--");
        push_arg(&mut r, self.host.as_str());
        push_arg(&mut r, command);
        assert(argv_view(r@) =~= middle + seq!["--"@, self@.host, command@]);
        assert(argv_view(r@) =~= self@.command_line(command@));
        r
    }

    /// Ends the session's ownership of its private socket. Where it owned one, gives the
    /// command that stops its control master and the directory to remove; a second call gives
    /// nothing.
    pub fn cleanup(&mut self) -> (r: Option<Teardown>)
        ensures
            final(self)@ == old(self)@.closed(),
            r is Some <==> old(self)@.teardown() is Some,
            r matches Some(t) ==> old(self)@.teardown() == Some(
                (argv_view(t.exit_command@), t.remove_dir@),
            ),
    {
        let socket = self.socket.take();
        match socket {
            None => None,
            Some(s) => {
                let mut exit_command: Vec<String> = Vec::new();
                push_arg(&mut exit_command, "ssh");
                push_all(&mut exit_command, &self.ssh_args);
                let ghost before = argv_view(exit_command@);
                push_arg(&mut exit_command, "-S");
                push_arg(&mut exit_command, s.as_ref());
                push_arg(&mut exit_command, "-Oexit");
                push_arg(&mut exit_command, "--");
                push_arg(&mut exit_command, self.host.as_str());
                assert(argv_view(exit_command@) =~= exit_line(
                    argv_view(self.ssh_args@),
                    socket_in(s.dir_view()),
                    self.host@,
                ));
                let remove_dir = String::from_str(s.dir());
                Some(Teardown { exit_command, remove_dir })
            },
        }
    }
}

/// A session that owns a private socket hands that socket's directory back for removal when it
/// is torn down, and owns no socket afterwards.
pub proof fn lemma_teardown_releases_socket_dir(s: SessionView)
    ensures
        s.socket_dir matches Some(d) ==> (s.teardown() matches Some(t) && t.1 == d),
        s.closed().socket_dir is None,
{
}

/// Tearing a session down twice issues at most one teardown: after the first, the session owns
/// no socket, so the second gives nothing and changes nothing.
pub proof fn lemma_cleanup_once(s: SessionView)
    ensures
        s.closed().teardown() is None,
        s.closed().closed() == s.closed(),
{
}


/// The policy that a command-line value names: `infer`, or one of the usual spellings of yes
/// and no; `None` for any other value.
pub open spec fn policy_named(s: Seq<char>) -> Option<CreateSocket> {
    if s == "infer"@ {
        Some(CreateSocket::Infer)
    } else if s == "y"@ || s == "yes"@ || s == "t"@ || s == "true"@ || s == "on"@ || s == "1"@ {
        Some(CreateSocket::Specify(true))
    } else if s == "n"@ || s == "no"@ || s == "f"@ || s == "false"@ || s == "off"@ || s == "0"@ {
        Some(CreateSocket::Specify(false))
    } else {
        None
    }
}

/// Whether `a` and `b` hold the same text.
fn same_text(a: &str, b: &str) -> (r: bool)
    ensures
        r == (a@ == b@),
{
    a.to_owned() == b.to_owned()
}

impl CreateSocket {
    /// Reads a policy from its command-line value; see [`policy_named`].
    pub fn parse(s: &str) -> (r: Option<CreateSocket>)
        ensures
            r == policy_named(s@),
    {
        if same_text(s, "infer") {
            Some(CreateSocket::Infer)
        } else if same_text(s, "y") || same_text(s, "yes") || same_text(s, "t") || same_text(s, "true")
            || same_text(s, "on") || same_text(s, "1") {
            Some(CreateSocket::Specify(true))
        } else if same_text(s, "n") || same_text(s, "no") || same_text(s, "f") || same_text(
            s,
            "false",
        ) || same_text(s, "off") || same_text(s, "0") {
            Some(CreateSocket::Specify(false))
        } else {
            None
        }
    }
}

impl core::str::FromStr for CreateSocket {
    type Err = String;

    fn from_str(s: &str) -> Result<CreateSocket, String> {
        match CreateSocket::parse(s) {
            Some(c) => Ok(c),
            None => {
                let mut message = "unknown value ".to_owned();
                message.append(s);
                Err(message)
            },
        }
    }
}

} // verus!
