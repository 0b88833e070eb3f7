use crate::ssh_mux::CreateSocket;
use vstd::prelude::*;

verus! {

/// A line of `s` (in the sense of `str::lines`) may start at `i`.
pub open spec fn line_starts_at(s: Seq<char>, i: int) -> bool {
    i == 0 || s[i - 1] == '\n'
}

/// A line of `s` may end at `j`: at the end, before `\n`, or before `\r\n`.
pub open spec fn line_ends_at(s: Seq<char>, j: int) -> bool {
    ||| j == s.len()
    ||| s[j] == '\n'
    ||| s[j] == '\r' && j + 1 < s.len() && s[j + 1] == '\n'
}

/// `t` is a whole line of `s`, for a `t` without line breaks.
pub open spec fn line_at(s: Seq<char>, i: int, t: Seq<char>) -> bool {
    &&& 0 <= i
    &&& i + t.len() <= s.len()
    &&& line_starts_at(s, i)
    &&& s.subrange(i, i + t.len()) == t
    &&& line_ends_at(s, i + t.len())
}

/// Some line of `s` is exactly `t`, for a `t` without line breaks.
pub open spec fn has_line(s: Seq<char>, t: Seq<char>) -> bool {
    exists|i: int| line_at(s, i, t)
}

/// The line by which `ssh -G` reports that the host multiplexes connections on its own.
pub open spec fn own_multiplexing_line() -> Seq<char> {
    "controlmaster auto"@
}

/// Whether to create a private socket, given the host's configuration dump where the query
/// succeeded: yes unless the host declares its own multiplexing, and yes where the query failed.
pub open spec fn inferred_create(config: Option<Seq<char>>) -> bool {
    match config {
        Some(s) => !has_line(s, own_multiplexing_line()),
        None => true,
    }
}

/// The text of an optional string.
pub open spec fn text_of(config: Option<&str>) -> Option<Seq<char>> {
    match config {
        Some(s) => Some(s@),
        None => None,
    }
}

/// The characters of `s`.
pub(crate) fn chars_of(s: &str) -> (r: Vec<char>)
    ensures
        r@ == s@,
{
    let n = s.unicode_len();
    let mut r: Vec<char> = Vec::new();
    let mut i: usize = 0;
    while i < n
        invariant
            n == s@.len(),
            i <= n,
            r@ == s@.subrange(0, i as int),
        decreases n - i,
    {
        r.push(s.get_char(i));
        assert(r@ =~= s@.subrange(0, i + 1));
        i = i + 1;
    }
    assert(r@ =~= s@);
    r
}

/// Whether `t` is a whole line of `s` starting at `i`.
fn line_at_exec(s: &Vec<char>, i: usize, t: &Vec<char>) -> (r: bool)
    ensures
        r == line_at(s@, i as int, t@),
{
    let n = s.len();
    let m = t.len();
    if i > n || m > n - i {
        return false;
    }
    if i > 0 && s[i - 1] != '\n' {
        return false;
    }
    let mut k: usize = 0;
    while k < m
        invariant
            i + m <= n,
            n == s@.len(),
            m == t@.len(),
            k <= m,
            forall|j: int| 0 <= j < k ==> s@[i + j] == t@[j],
        decreases m - k,
    {
        if s[i + k] != t[k] {
            assert(s@.subrange(i as int, i + m)[k as int] != t@[k as int]);
            return false;
        }
        k = k + 1;
    }
    assert(s@.subrange(i as int, i + m) =~= t@);
    let j = i + m;
    j == n || s[j] == '\n' || (s[j] == '\r' && j + 1 < n && s[j + 1] == '\n')
}

/// Whether some line of `s` is exactly `t`.
fn has_line_exec(s: &Vec<char>, t: &Vec<char>) -> (r: bool)
    ensures
        r == has_line(s@, t@),
{
    let n = s.len();
    let mut i: usize = 0;
    while i < n
        invariant
            n == s@.len(),
            i <= n,
            forall|j: int| 0 <= j < i ==> !line_at(s@, j, t@),
        decreases n - i,
    {
        if line_at_exec(s, i, t) {
            return true;
        }
        i = i + 1;
    }
    if line_at_exec(s, n, t) {
        return true;
    }
    assert forall|j: int| !line_at(s@, j, t@) by {
        if 0 <= j <= n {
        }
    }
    false
}

/// Guesses whether to create a private control socket from the output of `ssh -G <host>`
/// (`None` where that query failed).
///
/// A host whose configuration says `ControlMaster auto` multiplexes on its own, so no socket
/// is made for it. Otherwise, and on a failed query, one is: a socket that proves unneeded is
/// cheap, and a failed query shows again when the real connection is tried.
pub fn infer_create_socket(config: Option<&str>) -> (r: bool)
    ensures
        r == inferred_create(text_of(config)),
{
    match config {
        None => true,
        Some(s) => {
            let text = chars_of(s);
            let line = chars_of("controlmaster auto");
            !has_line_exec(&text, &line)
        },
    }
}

/// Resolves a socket policy to whether a private control socket is created. The configuration
/// dump is consulted only where the policy is to infer.
pub fn resolve_create_socket(policy: CreateSocket, config: Option<&str>) -> (r: bool)
    ensures
        policy matches CreateSocket::Specify(b) ==> r == b,
        policy is Infer ==> r == inferred_create(text_of(config)),
{
    match policy.into_option_bool() {
        Some(b) => b,
        None => infer_create_socket(config),
    }
}

/// Resolving an explicit policy gives the policy's own choice, whatever the host's
/// configuration says.
pub proof fn lemma_explicit_policy_ignores_config(b: bool, c1: Option<Seq<char>>, c2: Option<Seq<char>>)
    ensures
        resolved(CreateSocket::Specify(b), c1) == b,
        resolved(CreateSocket::Specify(b), c1) == resolved(CreateSocket::Specify(b), c2),
{
}

/// Resolving the policy to infer decides against a private socket exactly where the query
/// succeeded and reports the host's own multiplexing.
pub proof fn lemma_inferred_policy(c: Option<Seq<char>>)
    ensures
        !resolved(CreateSocket::Infer, c) <==> (c matches Some(s) && has_line(s, own_multiplexing_line())),
{
}

/// The resolution that [`resolve_create_socket`] computes.
pub open spec fn resolved(policy: CreateSocket, config: Option<Seq<char>>) -> bool {
    match policy {
        CreateSocket::Specify(b) => b,
        CreateSocket::Infer => inferred_create(config),
    }
}

} // verus!
