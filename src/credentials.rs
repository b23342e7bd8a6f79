//! The credential file: two lines, the username and then the password.

use vstd::prelude::*;

use crate::failure::Failure;

verus! {

/// A username and password, used for one connection attempt.
#[derive(Debug, PartialEq, Eq)]
pub struct Credentials {
    pub username: String,
    pub password: String,
}

/// Number of characters before the first line feed (all of them if there is none).
pub open spec fn line_len(s: Seq<char>) -> nat
    decreases s.len(),
{
    if s.len() == 0 {
        0
    } else if s[0] == '\n' {
        0
    } else {
        1 + line_len(s.drop_first())
    }
}

/// A line ended by a line feed loses one carriage return right before it.
pub open spec fn strip_cr(line: Seq<char>) -> Seq<char> {
    if line.len() > 0 && line.last() == '\r' {
        line.drop_last()
    } else {
        line
    }
}

/// The first line of non-empty text, as `str::lines` yields it.
pub open spec fn first_line(s: Seq<char>) -> Seq<char> {
    if line_len(s) < s.len() {
        strip_cr(s.take(line_len(s) as int))
    } else {
        s
    }
}

/// The text after the first line and its line feed.
pub open spec fn after_first_line(s: Seq<char>) -> Seq<char> {
    if line_len(s) < s.len() {
        s.skip(line_len(s) + 1int)
    } else {
        Seq::empty()
    }
}

/// The first two lines of the credential file, if it has two.
pub open spec fn spec_parse(s: Seq<char>) -> Option<(Seq<char>, Seq<char>)> {
    if s.len() == 0 || after_first_line(s).len() == 0 {
        None
    } else {
        Some((first_line(s), first_line(after_first_line(s))))
    }
}

/// The credential file's contents: username line, then password line.
pub open spec fn spec_format(username: Seq<char>, password: Seq<char>) -> Seq<char> {
    username + seq!['\n'] + password + seq!['\n']
}

/// Whether a value survives being written as one line of the file.
pub open spec fn fits_one_line(t: Seq<char>) -> bool {
    (forall|i: int| 0 <= i < t.len() ==> t[i] != '\n') && !(t.len() > 0 && t.last() == '\r')
}

proof fn lemma_line_len_upto(s: Seq<char>, i: int)
    requires
        0 <= i <= s.len(),
        forall|j: int| 0 <= j < i ==> s[j] != '\n',
        i == s.len() || s[i] == '\n',
    ensures
        line_len(s) == i,
    decreases s.len(),
{
    if s.len() > 0 && i > 0 {
        lemma_line_len_upto(s.drop_first(), i - 1);
    }
}

/// Index of the first line feed in `s` at or after `from`, or its length.
fn find_line_end(s: &str, from: usize) -> (r: usize)
    requires
        from <= s@.len(),
    ensures
        from <= r <= s@.len(),
        line_len(s@.skip(from as int)) == r - from,
{
    let n = s.unicode_len();
    let mut i: usize = from;
    while i < n
        invariant
            n == s@.len(),
            from <= i <= n,
            forall|j: int| from <= j < i ==> s@[j] != '\n',
        ensures
            from <= i <= n,
            forall|j: int| from <= j < i ==> s@[j] != '\n',
            i == n || s@[i as int] == '\n',
        decreases n - i,
    {
        if s.get_char(i) == '\n' {
            break;
        }
        i = i + 1;
    }
    proof {
        let t = s@.skip(from as int);
        assert forall|j: int| 0 <= j < i - from implies t[j] != '\n' by {
            assert(t[j] == s@[j + from]);
        }
        lemma_line_len_upto(t, i - from);
    }
    i
}

/// The line of `s` from `from` to `end`, with a carriage return dropped before a line feed.
fn line_at(s: &str, from: usize, end: usize) -> (r: String)
    requires
        from <= end <= s@.len(),
    ensures
        end < s@.len() ==> r@ == strip_cr(s@.subrange(from as int, end as int)),
        end == s@.len() ==> r@ == s@.subrange(from as int, end as int),
{
    let mut stop = end;
    if end < s.unicode_len() && end > from && s.get_char(end - 1) == '\r' {
        stop = end - 1;
    }
    let r = String::from_str(s.substring_char(from, stop));
    proof {
        if end < s@.len() {
            let line = s@.subrange(from as int, end as int);
            if line.len() > 0 && line.last() == '\r' {
                assert(r@ =~= line.drop_last());
            } else {
                assert(r@ =~= line);
            }
        }
    }
    r
}

/// Reads the credential file's contents: its first line is the username, its
/// second the password.  Text with fewer than two lines gives `None`.
pub fn parse_credentials(contents: &str) -> (r: Option<Credentials>)
    ensures
        match spec_parse(contents@) {
            Some((u, p)) => r is Some && r->0.username@ == u && r->0.password@ == p,
            None => r is None,
        },
{
    let n = contents.unicode_len();
    if n == 0 {
        return None;
    }
    let e1 = find_line_end(contents, 0);
    assert(contents@.skip(0) =~= contents@);
    if e1 >= n - 1 {
        proof {
            if e1 < n {
                assert(after_first_line(contents@).len() == 0);
            }
        }
        return None;
    }
    let username = line_at(contents, 0, e1);
    let e2 = find_line_end(contents, e1 + 1);
    let password = line_at(contents, e1 + 1, e2);
    proof {
        let s = contents@;
        let rest = after_first_line(s);
        assert(rest =~= s.skip(e1 + 1));
        assert(s.take(e1 as int) =~= s.subrange(0, e1 as int));
        assert(rest.take(e2 - (e1 + 1)) =~= s.subrange(e1 + 1, e2 as int));
        if e2 == n {
            assert(rest =~= s.subrange(e1 + 1, e2 as int));
        }
    }
    Some(Credentials { username, password })
}

/// Writes credentials out as the credential file's contents.
pub fn format_credentials(creds: &Credentials) -> (r: String)
    ensures
        r@ == spec_format(creds.username@, creds.password@),
{
    let mut r = creds.username.clone();
    r.append("\n");
    r.append(creds.password.as_str());
    r.append("\n");
    proof {
        reveal_strlit("\n");
    }
    r
}

proof fn lemma_line_of(t: Seq<char>, rest: Seq<char>)
    requires
        fits_one_line(t),
    ensures
        first_line(t + seq!['\n'] + rest) == t,
        after_first_line(t + seq!['\n'] + rest) == rest,
{
    let s = t + seq!['\n'] + rest;
    lemma_line_len_upto(s, t.len() as int);
    assert(s.take(t.len() as int) =~= t);
    assert(s.skip(t.len() + 1int) =~= rest);
}

/// Writing a credential pair to the file and reading it back gives the same
/// pair, for any username and password free of quoting characters that are
/// one line each (no line feed, and no carriage return at the end).
pub proof fn lemma_credentials_round_trip(username: Seq<char>, password: Seq<char>)
    requires
        !crate::script::has_quoting_char(username),
        !crate::script::has_quoting_char(password),
        fits_one_line(username),
        fits_one_line(password),
    ensures
        spec_parse(spec_format(username, password)) == Some((username, password)),
{
    let s = spec_format(username, password);
    let rest = password + seq!['\n'];
    assert(s =~= username + seq!['\n'] + rest);
    lemma_line_of(username, rest);
    lemma_line_of(password, Seq::empty());
    assert(rest =~= password + seq!['\n'] + Seq::<char>::empty());
}

} // verus!
