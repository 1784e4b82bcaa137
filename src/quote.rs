use vstd::prelude::*;

verus! {

/// How `c` is written between `quote` characters: the quote character and
/// the backslash are preceded by a backslash, any other character stands as it is.
pub open spec fn escaped_char(quote: char, c: char) -> Seq<char> {
    if c == quote {
        seq!['\\', quote]
    } else if c == '\\' {
        seq!['\\', '\\']
    } else {
        seq![c]
    }
}

/// Each character of `s`, escaped for a string delimited by `quote`.
pub open spec fn escaped(quote: char, s: Seq<char>) -> Seq<char>
    decreases s.len(),
{
    if s.len() == 0 {
        Seq::empty()
    } else {
        escaped(quote, s.drop_last()) + escaped_char(quote, s.last())
    }
}

/// `s` escaped and enclosed in `quote` characters.
pub open spec fn enquoted(quote: char, s: Seq<char>) -> Seq<char> {
    seq![quote] + escaped(quote, s) + seq![quote]
}

/// Relies on `enquote::enquote`: it escapes each `quote` and each backslash
/// of `s` with a backslash (the quote first) and encloses the result in `quote`.
#[verifier::external_body]
pub(crate) fn quoted(quote: char, s: &str) -> (r: String)
    ensures
        r@ == enquoted(quote, s@),
{
    enquote::enquote(quote, s)
}

} // verus!
