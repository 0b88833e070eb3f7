use vstd::prelude::*;
use vstd::slice::slice_to_vec;

verus! {

#[verifier::external_type_specification]
#[verifier::external_body]
pub struct ExRegex(regex::bytes::Regex);

#[verifier::external_type_specification]
#[verifier::external_body]
pub struct ExRegexError(regex::Error);

/// The characters that have a meaning of their own in a regular expression.
pub open spec fn is_meta(c: char) -> bool {
    ||| c == '\\' || c == '.' || c == '+' || c == '*' || c == '?' || c == '('
    ||| c == ')' || c == '|' || c == '[' || c == ']' || c == '{' || c == '}'
    ||| c == '^' || c == '$' || c == '#' || c == '&' || c == '-' || c == '~'
}

/// `s` as a regular expression that matches it literally: a backslash before each meta
/// character.
pub open spec fn escaped(s: Seq<char>) -> Seq<char>
    decreases s.len(),
{
    if s.len() == 0 {
        seq![]
    } else {
        let c = s.last();
        escaped(s.drop_last()) + if is_meta(c) {
            seq!['\\', c]
        } else {
            seq![c]
        }
    }
}

/// Whether `pattern` compiles as a regular expression within the default limits.
pub uninterp spec fn regex_compiles(pattern: Seq<char>) -> bool;

/// Whether the regular expression `pattern` matches somewhere in `haystack`.
pub uninterp spec fn regex_is_match(pattern: Seq<char>, haystack: Seq<u8>) -> bool;

/// Relies on regex::escape: each meta character gets a backslash before it.
#[verifier::external_body]
fn escape(text: &str) -> (r: String)
    ensures
        r@ == escaped(text@),
{
    regex::escape(text)
}

/// Relies on regex::bytes::Regex::new: it compiles `pattern` or reports why not.
#[verifier::external_body]
fn compile(pattern: &str) -> (r: Result<regex::bytes::Regex, regex::Error>)
    ensures
        r is Ok <==> regex_compiles(pattern@),
{
    regex::bytes::Regex::new(pattern)
}

/// The pattern of the credential helper's request to log in: "please run ... `<helper>` login",
/// in any case and across lines.
pub open spec fn login_pattern(helper: Seq<char>) -> Seq<char> {
    "(?mis)please\\s+run.*"@ + escaped(helper) + "\\s+login"@
}

/// A compiled [`login_pattern`].
struct LoginPrompt {
    regex: regex::bytes::Regex,
    pattern: Ghost<Seq<char>>,
}

impl LoginPrompt {
    /// The pattern that this prompt was compiled from.
    closed spec fn pattern(&self) -> Seq<char> {
        self.pattern@
    }

    /// Compiles the login request pattern of `helper`, where it compiles.
    fn new(helper: &str) -> (r: Option<LoginPrompt>)
        ensures
            r is Some <==> regex_compiles(login_pattern(helper@)),
            r matches Some(p) ==> p.pattern() == login_pattern(helper@),
    {
        let mut pattern = String::from_str("(?mis)please\\s+run.*");
        let name = escape(helper);
        pattern.append(name.as_str());
        pattern.append("\\s+login");
        match compile(pattern.as_str()) {
            Ok(regex) => Some(LoginPrompt { regex, pattern: Ghost(pattern@) }),
            Err(_) => None,
        }
    }

    /// Relies on regex::bytes::Regex::is_match: whether the compiled pattern matches somewhere
    /// in `haystack`.
    #[verifier::external_body]
    fn is_match(&self, haystack: &[u8]) -> (r: bool)
        ensures
            r == regex_is_match(self.pattern(), haystack@),
    {
        self.regex.is_match(haystack)
    }
}

/// Why a credential probe gave no verdict.
#[derive(Debug)]
pub enum ProbeError {
    /// The login request pattern did not compile.
    BadPattern,
    /// The helper failed for a reason other than a request to log in; holds its error output.
    HelperFailed(Vec<u8>),
}

/// `r` is the verdict on a probe that exited successfully or not (`exit_ok`), given whether its
/// error output asked for a login (`None` where that could not be told) and that output.
pub open spec fn verdict_is(
    r: Result<bool, ProbeError>,
    exit_ok: bool,
    login_asked: Option<bool>,
    stderr: Seq<u8>,
) -> bool {
    if exit_ok {
        r == Ok::<bool, ProbeError>(false)
    } else {
        match login_asked {
            Some(true) => r == Ok::<bool, ProbeError>(true),
            Some(false) => r matches Err(ProbeError::HelperFailed(e)) && e@ == stderr,
            None => r matches Err(ProbeError::BadPattern),
        }
    }
}

/// Decides a credential probe: a success means the credential is fresh (`false`); a failure
/// that asked for a login means it needs a refresh (`true`); any other failure is an error
/// that carries the helper's output, never a silent request to log in.
pub fn probe_verdict(exit_ok: bool, login_asked: Option<bool>, stderr: &[u8]) -> (r: Result<
    bool,
    ProbeError,
>)
    ensures
        verdict_is(r, exit_ok, login_asked, stderr@),
{
    if exit_ok {
        Ok(false)
    } else {
        match login_asked {
            Some(true) => Ok(true),
            Some(false) => Err(ProbeError::HelperFailed(slice_to_vec(stderr))),
            None => Err(ProbeError::BadPattern),
        }
    }
}

/// Whether the credential behind `helper` needs a refresh, from its `get` probe: whether that
/// exited successfully and what it wrote to standard error.
pub fn needs_refresh(helper: &str, exit_ok: bool, stderr: &[u8]) -> (r: Result<bool, ProbeError>)
    ensures
        exit_ok ==> r == Ok::<bool, ProbeError>(false),
        verdict_is(
            r,
            exit_ok,
            if regex_compiles(login_pattern(helper@)) {
                Some(regex_is_match(login_pattern(helper@), stderr@))
            } else {
                None
            },
            stderr@,
        ),
{
    if exit_ok {
        return Ok(false);
    }
    let login_asked = match LoginPrompt::new(helper) {
        Some(prompt) => Some(prompt.is_match(stderr)),
        None => None,
    };
    probe_verdict(false, login_asked, stderr)
}

/// The one line that a probe writes to the helper: `{"uri":"https://<remote>"}`.
pub open spec fn request_line(remote: Seq<char>) -> Seq<char> {
    "{\"uri\":\"https://"@ + remote + "\"}\n"@
}

/// The request that the helper's `get` reads from its input.
pub fn probe_request(remote: &str) -> (r: String)
    ensures
        r@ == request_line(remote@),
{
    let mut r = String::from_str("{\"uri\":\"https://");
    r.append(remote);
    r.append("\"}\n");
    r
}

} // verus!
