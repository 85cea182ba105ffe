//! Filename sanitization: map an arbitrary title to a file-system-safe name
//! by replacing each forbidden character with an underscore, one for one.

use vstd::prelude::*;
use crate::text::push_char;

verus! {

/// Characters that are illegal in file names on the target file systems.
pub open spec fn is_forbidden_char(c: char) -> bool {
    c == '<' || c == '>' || c == ':' || c == '"' || c == '/' || c == '\\' || c == '|' || c == '?'
        || c == '*'
}

/// What one character of the title becomes in the file name.
pub open spec fn sanitize_char(c: char) -> char {
    if is_forbidden_char(c) {
        '_'
    } else {
        c
    }
}

/// The sanitized form of a title: every forbidden character replaced by an
/// underscore, every other character kept, one for one.
pub open spec fn sanitized(s: Seq<char>) -> Seq<char> {
    s.map_values(|c: char| sanitize_char(c))
}

/// Replace each of `<>:"/\|?*` by an underscore; pass everything else,
/// non-ASCII included, through unchanged.
pub fn sanitize_filename(filename: &str) -> (r: String)
    ensures
        r@ == sanitized(filename@),
{
    let n = filename.unicode_len();
    let mut out = String::new();
    let mut i: usize = 0;
    while i < n
        invariant
            n == filename@.len(),
            0 <= i <= n,
            out@ == sanitized(filename@.subrange(0, i as int)),
        decreases n - i,
    {
        let c = filename.get_char(i);
        let replaced = if c == '<' || c == '>' || c == ':' || c == '"' || c == '/' || c == '\\'
            || c == '|' || c == '?' || c == '*' {
            '_'
        } else {
            c
        };
        push_char(&mut out, replaced);
        proof {
            assert(out@ =~= sanitized(filename@.subrange(0, i + 1)));
        }
        i += 1;
    }
    proof {
        assert(filename@.subrange(0, n as int) =~= filename@);
    }
    out
}

/// The sanitized form of a title contains none of the forbidden characters
/// and has exactly the length of the input: replacement is one for one.
pub proof fn lemma_sanitized_is_safe(s: Seq<char>)
    ensures
        sanitized(s).len() == s.len(),
        forall|i: int| 0 <= i < sanitized(s).len() ==> !is_forbidden_char(sanitized(s)[i]),
{
}

/// Sanitizing is idempotent: a sanitized title is a fixed point.
pub proof fn lemma_sanitized_fixed_point(s: Seq<char>)
    ensures
        sanitized(sanitized(s)) == sanitized(s),
{
    assert(sanitized(sanitized(s)) =~= sanitized(s));
}

} // verus!
