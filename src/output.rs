use vstd::prelude::*;
use crate::error::{exit_error, is_exit_error, WallpaperError};
use crate::text::{occurs_at, starts_with, trim, trimmed};

verus! {

/// A command succeeded: it exited with code 0.
pub open spec fn succeeded(code: Option<i32>) -> bool {
    code == Some(0i32)
}

/// Checks the exit code of `command`: success when it is 0, else the failure
/// of `command` with that code (-1 where there was none).
pub fn run(command: &str, code: Option<i32>) -> (r: Result<(), WallpaperError>)
    ensures
        succeeded(code) <==> r is Ok,
        r matches Err(e) ==> is_exit_error(e, command@, code),
{
    match code {
        Some(0) => Ok(()),
        _ => Err(exit_error(command, code)),
    }
}

/// `s` with each escaped single quote (a backslash, then `'`) replaced by a
/// single quote, scanning from the left.
pub open spec fn unescape_quotes(s: Seq<char>) -> Seq<char>
    decreases s.len(),
{
    if s.len() == 0 {
        s
    } else if s.len() >= 2 && s[0] == '\\' && s[1] == '\'' {
        seq!['\''] + unescape_quotes(s.subrange(2, s.len() as int))
    } else {
        seq![s[0]] + unescape_quotes(s.subrange(1, s.len() as int))
    }
}

/// `s` without the prefix `p`, where it begins with `p`.
pub open spec fn strip_prefix(s: Seq<char>, p: Seq<char>) -> Seq<char> {
    if occurs_at(s, p, 0) {
        s.subrange(p.len() as int, s.len() as int)
    } else {
        s
    }
}

/// `s` without its first character and, if one is then left, its last one.
pub open spec fn drop_ends(s: Seq<char>) -> Seq<char> {
    if s.len() >= 2 {
        s.subrange(1, s.len() - 1)
    } else {
        Seq::empty()
    }
}

/// The value that a settings tool printed as `s`: white space trimmed, the
/// enclosing quote characters dropped, escaped quotes unescaped and a leading
/// `file://` removed. `None` where nothing but white space was printed.
pub open spec fn settings_value(s: Seq<char>) -> Option<Seq<char>> {
    let t = trimmed(s);
    if t.len() == 0 {
        None
    } else {
        Some(strip_prefix(unescape_quotes(drop_ends(t)), "file://"@))
    }
}

/// Replaces each escaped single quote of `s` by a single quote.
fn unescape(s: &str) -> (r: String)
    ensures
        r@ == unescape_quotes(s@),
{
    let n = s.unicode_len();
    let mut out = String::new();
    let mut i: usize = 0;
    proof {
        reveal_strlit("'");
        assert(s@.subrange(0, n as int) =~= s@);
    }
    while i < n
        invariant
            n == s@.len(),
            i <= n,
            out@ + unescape_quotes(s@.subrange(i as int, n as int)) == unescape_quotes(s@),
            "'"@ == seq!['\''],
        decreases n - i,
    {
        let ghost rest = s@.subrange(i as int, n as int);
        let c = s.get_char(i);
        if c == '\\' && i + 1 < n && s.get_char(i + 1) == '\'' {
            assert(rest.subrange(2, rest.len() as int) =~= s@.subrange(i + 2, n as int));
            out.append("'");
            i = i + 2;
            assert(out@ + unescape_quotes(s@.subrange(i as int, n as int)) =~= unescape_quotes(s@));
        } else {
            assert(rest.subrange(1, rest.len() as int) =~= s@.subrange(i + 1, n as int));
            out.append(s.substring_char(i, i + 1));
            i = i + 1;
            assert(out@ + unescape_quotes(s@.subrange(i as int, n as int)) =~= unescape_quotes(s@));
        }
    }
    assert(out@ =~= unescape_quotes(s@));
    out
}

/// Parses what a settings tool printed for a value (see `settings_value`).
pub fn unquote_value(stdout: &str) -> (r: Result<String, WallpaperError>)
    ensures
        r is Ok <==> settings_value(stdout@) is Some,
        r matches Ok(v) ==> settings_value(stdout@) == Some(v@),
        r matches Err(e) ==> e == WallpaperError::EmptyOutput,
{
    let t = trim(stdout);
    let n = t.unicode_len();
    if n == 0 {
        return Err(WallpaperError::EmptyOutput);
    }
    let inner = if n >= 2 {
        t.substring_char(1, n - 1)
    } else {
        t.substring_char(0, 0)
    };
    assert(inner@ =~= drop_ends(t@));
    let u = unescape(inner);
    let scheme = "file://";
    if starts_with(u.as_str(), scheme) {
        let m = scheme.unicode_len();
        Ok(String::from_str(u.as_str().substring_char(m, u.as_str().unicode_len())))
    } else {
        Ok(u)
    }
}

/// What a settings tool reported, given the exit code it ended with and
/// what it printed: the failure of `command` unless the code is 0, else the
/// value parsed from `stdout`.
pub fn parse_dconf(command: &str, code: Option<i32>, stdout: &str) -> (r: Result<
    String,
    WallpaperError,
>)
    ensures
        r is Ok <==> succeeded(code) && settings_value(stdout@) is Some,
        r matches Ok(v) ==> settings_value(stdout@) == Some(v@),
        !succeeded(code) ==> (r matches Err(e) && is_exit_error(e, command@, code)),
        succeeded(code) && settings_value(stdout@) is None ==> r == Err::<
            String,
            WallpaperError,
        >(WallpaperError::EmptyOutput),
{
    match run(command, code) {
        Err(e) => Err(e),
        Ok(()) => unquote_value(stdout),
    }
}

} // verus!
