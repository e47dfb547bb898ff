//! Locating the player's control socket from its info-command output.
//!
//! The caller runs the player's own introspection command and hands its
//! standard output here. The scan finds the first line that begins with
//! `USER_RUNTIME_PATH` and has a second whitespace-delimited token; that
//! token names the runtime directory, and the socket path is the directory
//! joined with `/ncspot.sock`. Whitespace here is a space, tab or carriage
//! return; lines are separated by newlines.

use vstd::prelude::*;
use vstd::string::*;

verus! {

/// Why no socket path could be produced. All of these are fatal at startup:
/// without a socket path there is no useful work.
#[derive(Debug, Clone, Copy, PartialEq, Eq, Structural)]
pub enum LocatorError {
    /// The player's info command could not be spawned.
    SpawnFailed,
    /// The info command exited with a failure status.
    CommandFailed,
    /// The info command's output is not valid UTF-8 text.
    NotText,
    /// No line carried the runtime-path key with a directory after it.
    KeyNotFound,
}

impl LocatorError {
    /// A diagnostic for the CLI caller.
    pub fn describe(&self) -> (r: &str)
        ensures
            r@ == match *self {
                LocatorError::SpawnFailed => "failed to spawn the player's info command"@,
                LocatorError::CommandFailed => "the player's info command exited with an error"@,
                LocatorError::NotText => "the player's info output is not valid text"@,
                LocatorError::KeyNotFound => "no USER_RUNTIME_PATH line in the player's info output"@,
            },
    {
        match self {
            LocatorError::SpawnFailed => "failed to spawn the player's info command",
            LocatorError::CommandFailed => "the player's info command exited with an error",
            LocatorError::NotText => "the player's info output is not valid text",
            LocatorError::KeyNotFound => "no USER_RUNTIME_PATH line in the player's info output",
        }
    }
}

/// Token-separating whitespace within a line.
pub open spec fn is_space(c: char) -> bool {
    c == ' ' || c == '\t' || c == '\r'
}

/// Characters before the first newline: the whole length when there is none.
pub open spec fn line_len(s: Seq<char>) -> nat
    decreases s.len(),
{
    if s.len() == 0 {
        0
    } else if s[0] == '\n' {
        0
    } else {
        1 + line_len(s.drop_first())
    }
}

proof fn lemma_line_len(s: Seq<char>)
    ensures
        line_len(s) <= s.len(),
        forall|k: int| 0 <= k < line_len(s) ==> s[k] != '\n',
        line_len(s) < s.len() ==> s[line_len(s) as int] == '\n',
    decreases s.len(),
{
    if s.len() == 0 {
    } else if s[0] == '\n' {
    } else {
        lemma_line_len(s.drop_first());
        assert forall|k: int| 0 <= k < line_len(s) implies s[k] != '\n' by {
            if k > 0 {
                assert(s.drop_first()[k - 1] == s[k]);
            }
        }
        if line_len(s) < s.len() {
            assert(s.drop_first()[line_len(s.drop_first()) as int] == s[line_len(s) as int]);
        }
    }
}

/// First position at or after `i` that is not whitespace (the length if all
/// of the rest is).
pub open spec fn skip_ws(s: Seq<char>, i: int) -> int
    decreases s.len() - i when 0 <= i <= s.len()
{
    if i >= s.len() {
        i
    } else if is_space(s[i]) {
        skip_ws(s, i + 1)
    } else {
        i
    }
}

proof fn lemma_skip_ws(s: Seq<char>, i: int)
    requires
        0 <= i <= s.len(),
    ensures
        i <= skip_ws(s, i) <= s.len(),
        forall|k: int| i <= k < skip_ws(s, i) ==> is_space(s[k]),
        skip_ws(s, i) < s.len() ==> !is_space(s[skip_ws(s, i)]),
    decreases s.len() - i,
{
    if i < s.len() && is_space(s[i]) {
        lemma_skip_ws(s, i + 1);
    }
}

/// First position at or after `i` that is whitespace (the length if none is).
pub open spec fn token_end(s: Seq<char>, i: int) -> int
    decreases s.len() - i when 0 <= i <= s.len()
{
    if i >= s.len() {
        i
    } else if is_space(s[i]) {
        i
    } else {
        token_end(s, i + 1)
    }
}

proof fn lemma_token_end(s: Seq<char>, i: int)
    requires
        0 <= i <= s.len(),
    ensures
        i <= token_end(s, i) <= s.len(),
        forall|k: int| i <= k < token_end(s, i) ==> !is_space(s[k]),
        token_end(s, i) < s.len() ==> is_space(s[token_end(s, i)]),
    decreases s.len() - i,
{
    if i < s.len() && !is_space(s[i]) {
        lemma_token_end(s, i + 1);
    }
}

/// The line's second whitespace-delimited token, if it has one.
pub open spec fn second_token(line: Seq<char>) -> Option<Seq<char>> {
    let a = skip_ws(line, 0);
    let b = token_end(line, a);
    let c = skip_ws(line, b);
    let d = token_end(line, c);
    if c < line.len() {
        Some(line.subrange(c, d))
    } else {
        None
    }
}

/// The line begins with the runtime-path key.
pub open spec fn key_prefix(line: Seq<char>) -> bool {
    line.len() >= "USER_RUNTIME_PATH"@.len() && line.subrange(
        0,
        "USER_RUNTIME_PATH"@.len() as int,
    ) == "USER_RUNTIME_PATH"@
}

/// What one line yields: the socket path when the line carries the key and a
/// directory token, nothing otherwise.
pub open spec fn line_result(line: Seq<char>) -> Option<Seq<char>> {
    if key_prefix(line) {
        match second_token(line) {
            Some(t) => Some(t + "/ncspot.sock"@),
            None => None,
        }
    } else {
        None
    }
}

/// Scan the output line by line; the first line that yields a path wins.
pub open spec fn locate_socket_path(s: Seq<char>) -> Option<Seq<char>>
    decreases s.len(),
{
    let n = line_len(s);
    let line = if n >= s.len() {
        s
    } else {
        s.subrange(0, n as int)
    };
    match line_result(line) {
        Some(p) => Some(p),
        None => if n >= s.len() {
            None
        } else {
            locate_socket_path(s.subrange(n as int + 1, s.len() as int))
        },
    }
}

fn first_line_len(s: &str, n: usize) -> (r: usize)
    requires
        n == s@.len(),
    ensures
        r as nat == line_len(s@),
{
    proof {
        lemma_line_len(s@);
    }
    let mut i: usize = 0;
    while i < n
        invariant
            n == s@.len(),
            0 <= i <= n,
            forall|k: int| 0 <= k < i ==> s@[k] != '\n',
            line_len(s@) <= s@.len(),
            forall|k: int| 0 <= k < line_len(s@) ==> s@[k] != '\n',
            line_len(s@) < s@.len() ==> s@[line_len(s@) as int] == '\n',
        decreases n - i,
    {
        let c = s.get_char(i);
        if c == '\n' {
            proof {
                assert(line_len(s@) <= i);
                assert(i <= line_len(s@));
            }
            return i;
        }
        i += 1;
    }
    i
}

fn scan_ws(s: &str, from: usize, n: usize) -> (r: usize)
    requires
        n == s@.len(),
        from <= n,
    ensures
        r as int == skip_ws(s@, from as int),
        from <= r <= n,
    decreases n - from,
{
    proof {
        lemma_skip_ws(s@, from as int);
    }
    let mut i = from;
    while i < n
        invariant
            n == s@.len(),
            from <= i <= n,
            skip_ws(s@, from as int) == skip_ws(s@, i as int),
        decreases n - i,
    {
        let c = s.get_char(i);
        if !(c == ' ' || c == '\t' || c == '\r') {
            return i;
        }
        i += 1;
    }
    i
}

fn scan_token(s: &str, from: usize, n: usize) -> (r: usize)
    requires
        n == s@.len(),
        from <= n,
    ensures
        r as int == token_end(s@, from as int),
        from <= r <= n,
    decreases n - from,
{
    proof {
        lemma_token_end(s@, from as int);
    }
    let mut i = from;
    while i < n
        invariant
            n == s@.len(),
            from <= i <= n,
            token_end(s@, from as int) == token_end(s@, i as int),
        decreases n - i,
    {
        let c = s.get_char(i);
        if c == ' ' || c == '\t' || c == '\r' {
            return i;
        }
        i += 1;
    }
    i
}

fn second_token_exec(line: &str, n: usize) -> (r: Option<String>)
    requires
        n == line@.len(),
    ensures
        match r {
            Some(t) => second_token(line@) == Some(t@),
            None => second_token(line@) is None,
        },
{
    let a = scan_ws(line, 0, n);
    let b = scan_token(line, a, n);
    let c = scan_ws(line, b, n);
    let d = scan_token(line, c, n);
    if c < n {
        Some(line.substring_char(c, d).to_owned())
    } else {
        None
    }
}

fn starts_with_key(line: &str, n: usize) -> (b: bool)
    requires
        n == line@.len(),
    ensures
        b == key_prefix(line@),
{
    proof {
        reveal_strlit("USER_RUNTIME_PATH");
    }
    if n < 17 {
        return false;
    }
    let pre = line.substring_char(0, 17);
    let pre_owned: String = pre.to_owned();
    let key_owned: String = "USER_RUNTIME_PATH".to_owned();
    let b = pre_owned == key_owned;
    b
}

fn locate_rec(s: &str) -> (r: Option<String>)
    ensures
        match r {
            Some(p) => locate_socket_path(s@) == Some(p@),
            None => locate_socket_path(s@) is None,
        },
    decreases s@.len(),
{
    let n = s.unicode_len();
    proof {
        lemma_line_len(s@);
    }
    let ll = first_line_len(s, n);
    let line = if ll >= n {
        s
    } else {
        s.substring_char(0, ll)
    };
    let ln = if ll >= n {
        n
    } else {
        ll
    };
    if starts_with_key(line, ln) {
        match second_token_exec(line, ln) {
            Some(t) => {
                let mut p = t;
                p.append("/ncspot.sock");
                return Some(p);
            },
            None => {},
        }
    }
    if ll >= n {
        None
    } else {
        locate_rec(s.substring_char(ll + 1, n))
    }
}

/// Derive the socket path from the info command's output: the first line
/// carrying the key and a directory yields the directory joined with
/// `/ncspot.sock`; output without such a line reports the key as missing.
pub fn socket_path_from_info(output: &str) -> (r: Result<String, LocatorError>)
    ensures
        match locate_socket_path(output@) {
            Some(p) => r matches Ok(path) && path@ == p,
            None => r matches Err(e) && e == LocatorError::KeyNotFound,
        },
{
    match locate_rec(output) {
        Some(p) => Ok(p),
        None => Err(LocatorError::KeyNotFound),
    }
}

} // verus!
