use crate::config::line_starts_at;
use vstd::prelude::*;

verus! {

/// Whether `c` has the Unicode `White_Space` property.
pub uninterp spec fn white_space(c: char) -> bool;

/// Relies on char::is_whitespace: whether `c` has the Unicode `White_Space` property.
#[verifier::external_body]
fn is_whitespace(c: char) -> (r: bool)
    ensures
        r == white_space(c),
{
    c.is_whitespace()
}

/// `t` without its leading white space.
pub open spec fn trim_start(t: Seq<char>) -> Seq<char>
    decreases t.len(),
{
    if t.len() > 0 && white_space(t[0]) {
        trim_start(t.drop_first())
    } else {
        t
    }
}

/// `t` without its trailing white space.
pub open spec fn trim_end(t: Seq<char>) -> Seq<char>
    decreases t.len(),
{
    if t.len() > 0 && white_space(t.last()) {
        trim_end(t.drop_last())
    } else {
        t
    }
}

/// `t` without white space at either end, as `str::trim` gives it.
pub open spec fn trimmed(t: Seq<char>) -> Seq<char> {
    trim_end(trim_start(t))
}

/// Where the line that starts at `i` ends: the first `\n` at or after `i`, or the end of `s`.
pub open spec fn line_end(s: Seq<char>, i: int) -> int
    decreases s.len() - i,
{
    if i < 0 || i >= s.len() || s[i] == '\n' {
        i
    } else {
        line_end(s, i + 1)
    }
}

/// The text of the line of `s` that starts at `i`, without its `\n` or `\r\n`.
pub open spec fn line_text(s: Seq<char>, i: int) -> Seq<char> {
    let j = line_end(s, i);
    if j < s.len() && i < j && s[j - 1] == '\r' {
        s.subrange(i, j - 1)
    } else {
        s.subrange(i, j)
    }
}

/// A line of `s` (in the sense of `str::lines`) starts at `i` and, trimmed, is `t`.
pub open spec fn trimmed_line_is(s: Seq<char>, i: int, t: Seq<char>) -> bool {
    0 <= i < s.len() && line_starts_at(s, i) && trimmed(line_text(s, i)) == t
}

/// A line of `s` starts at `i` and, trimmed, begins with `p`.
pub open spec fn trimmed_line_begins(s: Seq<char>, i: int, p: Seq<char>) -> bool {
    0 <= i < s.len() && line_starts_at(s, i) && p.is_prefix_of(trimmed(line_text(s, i)))
}

/// Whether the configuration dump `s` declares both `ControlMaster auto` and some
/// `ControlPersist`, each on a line of its own.
pub open spec fn declares_user_socket(s: Seq<char>) -> bool {
    &&& exists|i: int| #[trigger] trimmed_line_is(s, i, "controlmaster auto"@)
    &&& exists|i: int| #[trigger] trimmed_line_begins(s, i, "controlpersist"@)
}

proof fn lemma_trim_start(s: Seq<char>, a: int, b: int, e: int)
    requires
        0 <= a <= b <= e <= s.len(),
        forall|k: int| a <= k < b ==> white_space(s[k]),
        b == e || !white_space(s[b]),
    ensures
        trim_start(s.subrange(a, e)) == s.subrange(b, e),
    decreases b - a,
{
    if a < b {
        assert(s.subrange(a, e).drop_first() =~= s.subrange(a + 1, e));
        lemma_trim_start(s, a + 1, b, e);
    }
}

proof fn lemma_trim_end(s: Seq<char>, b: int, c: int, e: int)
    requires
        0 <= b <= c <= e <= s.len(),
        forall|k: int| c <= k < e ==> white_space(s[k]),
        c == b || !white_space(s[c - 1]),
    ensures
        trim_end(s.subrange(b, e)) == s.subrange(b, c),
    decreases e - c,
{
    if c < e {
        assert(s.subrange(b, e).drop_last() =~= s.subrange(b, e - 1));
        lemma_trim_end(s, b, c, e - 1);
    }
}

/// The bounds of `s[a..e]` without white space at either end.
fn trimmed_bounds(s: &Vec<char>, a: usize, e: usize) -> (r: (usize, usize))
    requires
        a <= e <= s@.len(),
    ensures
        a <= r.0 <= r.1 <= e,
        s@.subrange(r.0 as int, r.1 as int) == trimmed(s@.subrange(a as int, e as int)),
{
    let mut b = a;
    while b < e && is_whitespace(s[b])
        invariant
            a <= b <= e <= s@.len(),
            forall|k: int| a <= k < b ==> white_space(s@[k]),
        decreases e - b,
    {
        b = b + 1;
    }
    proof {
        lemma_trim_start(s@, a as int, b as int, e as int);
    }
    let mut c = e;
    while c > b && is_whitespace(s[c - 1])
        invariant
            b <= c <= e <= s@.len(),
            forall|k: int| c <= k < e ==> white_space(s@[k]),
        decreases c - b,
    {
        c = c - 1;
    }
    proof {
        lemma_trim_end(s@, b as int, c as int, e as int);
    }
    (b, c)
}

/// Whether `s[b..c]` is `t`.
fn range_is(s: &Vec<char>, b: usize, c: usize, t: &Vec<char>) -> (r: bool)
    requires
        b <= c <= s@.len(),
    ensures
        r == (s@.subrange(b as int, c as int) == t@),
{
    if c - b != t.len() {
        return false;
    }
    range_begins(s, b, c, t)
}

/// Whether `s[b..c]` begins with `p`.
fn range_begins(s: &Vec<char>, b: usize, c: usize, p: &Vec<char>) -> (r: bool)
    requires
        b <= c <= s@.len(),
    ensures
        r == p@.is_prefix_of(s@.subrange(b as int, c as int)),
        r && c - b == p@.len() ==> s@.subrange(b as int, c as int) == p@,
{
    let m = p.len();
    if m > c - b {
        return false;
    }
    let mut k: usize = 0;
    while k < m
        invariant
            b + m <= c <= s@.len(),
            m == p@.len(),
            k <= m,
            forall|j: int| 0 <= j < k ==> s@[b + j] == p@[j],
        decreases m - k,
    {
        if s[b + k] != p[k] {
            assert(s@.subrange(b as int, c as int).subrange(0, m as int)[k as int] != p@[k as int]);
            return false;
        }
        k = k + 1;
    }
    assert(p@ =~= s@.subrange(b as int, c as int).subrange(0, m as int));
    proof {
        if c - b == m {
            assert(s@.subrange(b as int, c as int) =~= p@);
        }
    }
    true
}

proof fn lemma_line_end_step(s: Seq<char>, i: int, j: int)
    requires
        0 <= i <= j < s.len(),
        s[j] != '\n',
        line_end(s, j) == line_end(s, i),
    ensures
        line_end(s, j + 1) == line_end(s, i),
{
}

/// Whether the output of `ssh -G <host>` shows that the user's own configuration keeps a
/// control master: a line `controlmaster auto` and a line that begins with `controlpersist`,
/// each compared without surrounding white space.
pub fn has_user_socket(config: &str) -> (r: bool)
    ensures
        r == declares_user_socket(config@),
{
    let s = crate::config::chars_of(config);
    let auto_line = crate::config::chars_of("controlmaster auto");
    let persist = crate::config::chars_of("controlpersist");
    let n = s.len();
    let mut has_auto = false;
    let mut has_persist = false;
    let mut i: usize = 0;
    while i < n
        invariant
            n == s@.len(),
            s@ == config@,
            auto_line@ == "controlmaster auto"@,
            persist@ == "controlpersist"@,
            i <= n,
            i < n ==> line_starts_at(s@, i as int),
            has_auto == exists|a: int| 0 <= a < i && #[trigger] trimmed_line_is(s@, a, auto_line@),
            has_persist == exists|a: int| 0 <= a < i && #[trigger] trimmed_line_begins(s@, a, persist@),
        decreases n - i,
    {
        let mut j = i;
        while j < n && s[j] != '\n'
            invariant
                n == s@.len(),
                i <= j <= n,
                forall|k: int| i <= k < j ==> s@[k] != '\n',
                line_end(s@, j as int) == line_end(s@, i as int),
            decreases n - j,
        {
            proof {
                lemma_line_end_step(s@, i as int, j as int);
            }
            j = j + 1;
        }
        assert(line_end(s@, i as int) == j);
        let e = if j < n && i < j && s[j - 1] == '\r' {
            j - 1
        } else {
            j
        };
        assert(s@.subrange(i as int, e as int) == line_text(s@, i as int));
        let (b, c) = trimmed_bounds(&s, i, e);
        let ghost old_auto = has_auto;
        let ghost old_persist = has_persist;
        let found_auto = range_is(&s, b, c, &auto_line);
        let found_persist = range_begins(&s, b, c, &persist);
        assert(found_auto == trimmed_line_is(s@, i as int, auto_line@));
        assert(found_persist == trimmed_line_begins(s@, i as int, persist@));
        has_auto = has_auto || found_auto;
        has_persist = has_persist || found_persist;
        let next = if j < n {
            j + 1
        } else {
            n
        };
        assert forall|a: int| i < a < next implies !line_starts_at(s@, a) by {
            assert(s@[a - 1] != '\n');
        }
        assert(has_auto == exists|a: int| 0 <= a < next && #[trigger] trimmed_line_is(s@, a, auto_line@)) by {
            if exists|a: int| 0 <= a < next && #[trigger] trimmed_line_is(s@, a, auto_line@) {
                let a = choose|a: int| 0 <= a < next && #[trigger] trimmed_line_is(s@, a, auto_line@);
                if a > i {
                    assert(!line_starts_at(s@, a));
                } else if a < i {
                    assert(old_auto);
                }
            }
            if old_auto {
                let a = choose|a: int| 0 <= a < i && #[trigger] trimmed_line_is(s@, a, auto_line@);
                assert(0 <= a < next && trimmed_line_is(s@, a, auto_line@));
            }
            if found_auto {
                assert(0 <= i < next && trimmed_line_is(s@, i as int, auto_line@));
            }
        }
        assert(has_persist == exists|a: int| 0 <= a < next && #[trigger] trimmed_line_begins(s@, a, persist@)) by {
            if exists|a: int| 0 <= a < next && #[trigger] trimmed_line_begins(s@, a, persist@) {
                let a = choose|a: int| 0 <= a < next && #[trigger] trimmed_line_begins(s@, a, persist@);
                if a > i {
                    assert(!line_starts_at(s@, a));
                } else if a < i {
                    assert(old_persist);
                }
            }
            if old_persist {
                let a = choose|a: int| 0 <= a < i && #[trigger] trimmed_line_begins(s@, a, persist@);
                assert(0 <= a < next && trimmed_line_begins(s@, a, persist@));
            }
            if found_persist {
                assert(0 <= i < next && trimmed_line_begins(s@, i as int, persist@));
            }
        }
        i = next;
    }
    has_auto && has_persist
}

} // verus!
