//! URL canonicalization: extract the video identifier from a possibly
//! malformed, multi-line input and rebuild a canonical request URL.

use vstd::prelude::*;
use crate::text::{trimmed, trim_str};

verus! {

/// The canonical request-URL template; the video identifier follows it.
pub open spec fn url_prefix() -> Seq<char> {
    "https://www.youtube.com/watch?v="@
}

/// Characters that end the video identifier inside a larger input.
pub open spec fn is_sep_char(c: char) -> bool {
    c == '&' || c == ' ' || c == '\n' || c == '\r'
}

/// Index of the first occurrence of the identifier marker `v=` at or after
/// `i`; `-1` when there is none.
pub open spec fn marker_index_from(s: Seq<char>, i: int) -> int
    decreases s.len() - i when 0 <= i
{
    if i + 2 > s.len() {
        -1
    } else if s[i] == 'v' && s[i + 1] == '=' {
        i
    } else {
        marker_index_from(s, i + 1)
    }
}

/// Index of the first separator character at or after `i`; `-1` when there
/// is none.
pub open spec fn sep_index_from(s: Seq<char>, i: int) -> int
    decreases s.len() - i when 0 <= i
{
    if i >= s.len() {
        -1
    } else if is_sep_char(s[i]) {
        i
    } else {
        sep_index_from(s, i + 1)
    }
}

/// Index of the first newline at or after `i`; `-1` when there is none.
pub open spec fn newline_index_from(s: Seq<char>, i: int) -> int
    decreases s.len() - i when 0 <= i
{
    if i >= s.len() {
        -1
    } else if s[i] == '\n' {
        i
    } else {
        newline_index_from(s, i + 1)
    }
}

/// The input up to (excluding) its first newline; the whole input when it
/// has none.
pub open spec fn first_line(s: Seq<char>) -> Seq<char> {
    let j = newline_index_from(s, 0);
    if j >= 0 {
        s.subrange(0, j)
    } else {
        s
    }
}

/// The canonical URL derived from a raw input: when the identifier marker
/// occurs, the template followed by the identifier (cut at the first
/// separator, or whitespace-trimmed when no separator follows); otherwise the
/// trimmed first line of the trimmed input, as a best effort.
pub open spec fn canonical_url(raw: Seq<char>) -> Seq<char> {
    let m = marker_index_from(raw, 0);
    if m >= 0 {
        let after = raw.subrange(m + 2, raw.len() as int);
        let sep = sep_index_from(after, 0);
        if sep >= 0 {
            url_prefix() + after.subrange(0, sep)
        } else {
            url_prefix() + trimmed(after)
        }
    } else {
        trimmed(first_line(trimmed(raw)))
    }
}

pub proof fn lemma_marker_index_bounds(s: Seq<char>, i: int)
    requires
        0 <= i,
    ensures
        marker_index_from(s, i) == -1 || (i <= marker_index_from(s, i) && marker_index_from(s, i)
            + 2 <= s.len() && s[marker_index_from(s, i)] == 'v' && s[marker_index_from(s, i) + 1]
            == '='),
    decreases s.len() - i,
{
    if i + 2 > s.len() {
    } else if s[i] == 'v' && s[i + 1] == '=' {
    } else {
        lemma_marker_index_bounds(s, i + 1);
    }
}

pub proof fn lemma_sep_index_bounds(s: Seq<char>, i: int)
    requires
        0 <= i,
    ensures
        sep_index_from(s, i) == -1 || (i <= sep_index_from(s, i) && sep_index_from(s, i) < s.len()
            && is_sep_char(s[sep_index_from(s, i)])),
    decreases s.len() - i,
{
    if i >= s.len() {
    } else if is_sep_char(s[i]) {
    } else {
        lemma_sep_index_bounds(s, i + 1);
    }
}

/// No character strictly before the first separator is itself a separator.
pub proof fn lemma_sep_index_first(s: Seq<char>, i: int, k: int)
    requires
        0 <= i <= k,
        sep_index_from(s, i) == -1 || k < sep_index_from(s, i),
        k < s.len(),
    ensures
        !is_sep_char(s[k]),
    decreases s.len() - i,
{
    lemma_sep_index_bounds(s, i);
    if i >= s.len() {
    } else if is_sep_char(s[i]) {
    } else {
        if k > i {
            lemma_sep_index_first(s, i + 1, k);
        }
    }
}

/// The identifier part of a canonical URL, when the marker and a separator
/// both occur, is exactly the input between them and contains no separator
/// character.
pub proof fn lemma_canonical_identifier(raw: Seq<char>)
    requires
        marker_index_from(raw, 0) >= 0,
        sep_index_from(raw.subrange(marker_index_from(raw, 0) + 2, raw.len() as int), 0) >= 0,
    ensures
        ({
            let m = marker_index_from(raw, 0);
            let after = raw.subrange(m + 2, raw.len() as int);
            let sep = sep_index_from(after, 0);
            &&& canonical_url(raw) == url_prefix() + raw.subrange(m + 2, m + 2 + sep)
            &&& forall|k: int|
                0 <= k < sep ==> !is_sep_char(#[trigger] canonical_url(raw)[url_prefix().len()
                    + k])
        }),
{
    let m = marker_index_from(raw, 0);
    lemma_marker_index_bounds(raw, 0);
    let after = raw.subrange(m + 2, raw.len() as int);
    let sep = sep_index_from(after, 0);
    lemma_sep_index_bounds(after, 0);
    assert(after.subrange(0, sep) =~= raw.subrange(m + 2, m + 2 + sep));
    assert forall|k: int| 0 <= k < sep implies !is_sep_char(
        #[trigger] canonical_url(raw)[url_prefix().len() + k],
    ) by {
        lemma_sep_index_first(after, 0, k);
        assert(canonical_url(raw)[url_prefix().len() + k] == after[k]);
    }
}

/// Whether the character ends the video identifier.
pub fn is_sep(c: char) -> (r: bool)
    ensures
        r == is_sep_char(c),
{
    c == '&' || c == ' ' || c == '\n' || c == '\r'
}

/// Rebuild a canonical request URL from a raw input, as `canonical_url`
/// describes.  Always produces some string; a missing marker falls back to
/// the first line of the trimmed input.
pub fn canonicalize_url(raw: &str) -> (r: String)
    ensures
        r@ == canonical_url(raw@),
{
    let n = raw.unicode_len();
    let mut i: usize = 0;
    let mut marker: usize = 0;
    let mut found = false;
    while i < n && i + 1 < n
        invariant_except_break
            !found,
            marker_index_from(raw@, 0) == marker_index_from(raw@, i as int),
        invariant
            n == raw@.len(),
            0 <= i <= n,
        ensures
            found ==> marker_index_from(raw@, 0) == marker && marker + 2 <= n,
            !found ==> marker_index_from(raw@, 0) == -1,
        decreases n - i,
    {
        if raw.get_char(i) == 'v' && raw.get_char(i + 1) == '=' {
            marker = i;
            found = true;
            break;
        }
        i += 1;
    }
    if found {
        proof {
            lemma_marker_index_bounds(raw@, 0);
        }
        let after = raw.substring_char(marker + 2, n);
        let after_len = n - (marker + 2);
        let mut j: usize = 0;
        let mut sep_found = false;
        while j < after_len
            invariant_except_break
                !sep_found,
                sep_index_from(after@, 0) == sep_index_from(after@, j as int),
            invariant
                after_len == after@.len(),
                0 <= j <= after_len,
            ensures
                0 <= j <= after_len,
                after_len == after@.len(),
                sep_found ==> sep_index_from(after@, 0) == j && j < after_len,
                !sep_found ==> sep_index_from(after@, 0) == -1,
            decreases after_len - j,
        {
            if is_sep(after.get_char(j)) {
                sep_found = true;
                break;
            }
            j += 1;
        }
        let mut out = String::from_str("https://www.youtube.com/watch?v=");
        if sep_found {
            let id = after.substring_char(0, j);
            out.append(id);
        } else {
            let id = trim_str(after);
            out.append(id);
        }
        out
    } else {
        let t = trim_str(raw);
        let t_len = t.unicode_len();
        let mut k: usize = 0;
        let mut nl_found = false;
        while k < t_len
            invariant_except_break
                !nl_found,
                newline_index_from(t@, 0) == newline_index_from(t@, k as int),
            invariant
                t_len == t@.len(),
                0 <= k <= t_len,
            ensures
                0 <= k <= t_len,
                t_len == t@.len(),
                nl_found ==> newline_index_from(t@, 0) == k && k < t_len,
                !nl_found ==> newline_index_from(t@, 0) == -1,
            decreases t_len - k,
        {
            if t.get_char(k) == '\n' {
                nl_found = true;
                break;
            }
            k += 1;
        }
        let line = if nl_found {
            t.substring_char(0, k)
        } else {
            t
        };
        let t2 = trim_str(line);
        String::from_str(t2)
    }
}

} // verus!
