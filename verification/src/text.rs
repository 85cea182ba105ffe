//! Character and string utilities shared by the other modules: appending a
//! character to a `String`, whitespace trimming, and substring search.

use vstd::prelude::*;

verus! {

/// Relies on std's `String::push`: appends exactly the one given character.
#[verifier::external_body]
pub fn push_char(s: &mut String, c: char)
    ensures
        final(s)@ == old(s)@.push(c),
{
    s.push(c)
}

/// The whitespace characters this library strips from the ends of input text.
pub open spec fn is_space_char(c: char) -> bool {
    c == ' ' || c == '\t' || c == '\n' || c == '\r'
}

/// Index of the first non-whitespace character at or after `i`; `s.len()`
/// when everything from `i` on is whitespace.
pub open spec fn ltrim_index(s: Seq<char>, i: int) -> int
    decreases s.len() - i when 0 <= i <= s.len()
{
    if i < s.len() && is_space_char(s[i]) {
        ltrim_index(s, i + 1)
    } else {
        i
    }
}

/// One past the last non-whitespace character strictly before `j`; `0` when
/// everything before `j` is whitespace.
pub open spec fn rtrim_index(s: Seq<char>, j: int) -> int
    decreases j when 0 <= j <= s.len()
{
    if j > 0 && is_space_char(s[j - 1]) {
        rtrim_index(s, j - 1)
    } else {
        j
    }
}

/// The input with leading and trailing whitespace removed.
pub open spec fn trimmed(s: Seq<char>) -> Seq<char> {
    if ltrim_index(s, 0) == s.len() {
        Seq::<char>::empty()
    } else {
        s.subrange(ltrim_index(s, 0), rtrim_index(s, s.len() as int))
    }
}

proof fn lemma_ltrim_bounds(s: Seq<char>, i: int)
    requires
        0 <= i <= s.len(),
    ensures
        i <= ltrim_index(s, i) <= s.len(),
    decreases s.len() - i,
{
    if i < s.len() && is_space_char(s[i]) {
        lemma_ltrim_bounds(s, i + 1);
    }
}

/// When the character at position `k` is not whitespace, trimming from the
/// right stops strictly after `k`.
proof fn lemma_rtrim_above(s: Seq<char>, j: int, k: int)
    requires
        0 <= k < j <= s.len(),
        !is_space_char(s[k]),
    ensures
        rtrim_index(s, j) > k,
    decreases j,
{
    if j > 0 && is_space_char(s[j - 1]) {
        lemma_rtrim_above(s, j - 1, k);
    }
}

/// Whether the character is one this library treats as whitespace.
pub fn is_space(c: char) -> (r: bool)
    ensures
        r == is_space_char(c),
{
    c == ' ' || c == '\t' || c == '\n' || c == '\r'
}

/// Remove leading and trailing whitespace, as `trimmed` describes.
pub fn trim_str<'a>(s: &'a str) -> (r: &'a str)
    ensures
        r@ == trimmed(s@),
{
    let n = s.unicode_len();
    let mut lo: usize = 0;
    while lo < n && is_space(s.get_char(lo))
        invariant
            n == s@.len(),
            0 <= lo <= n,
            ltrim_index(s@, 0) == ltrim_index(s@, lo as int),
        decreases n - lo,
    {
        lo += 1;
    }
    proof {
        lemma_ltrim_bounds(s@, lo as int);
        assert(ltrim_index(s@, lo as int) == lo as int);
    }
    if lo == n {
        let r = s.substring_char(n, n);
        proof {
            assert(r@ =~= trimmed(s@));
        }
        return r;
    }
    let mut hi: usize = n;
    while hi > 0 && is_space(s.get_char(hi - 1))
        invariant
            n == s@.len(),
            0 <= hi <= n,
            rtrim_index(s@, n as int) == rtrim_index(s@, hi as int),
        decreases hi,
    {
        hi -= 1;
    }
    proof {
        assert(rtrim_index(s@, hi as int) == hi as int);
        assert(!is_space_char(s@[lo as int]));
        lemma_rtrim_above(s@, n as int, lo as int);
    }
    let r = s.substring_char(lo, hi);
    proof {
        assert(r@ =~= trimmed(s@));
    }
    r
}

/// Whether `needle` occurs in `hay` starting at position `i`.
pub open spec fn occurs_at(hay: Seq<char>, needle: Seq<char>, i: int) -> bool {
    0 <= i && i + needle.len() <= hay.len() && hay.subrange(i, i + needle.len()) == needle
}

/// Whether `needle` occurs anywhere in `hay` (substring containment).
pub open spec fn contains_seq(hay: Seq<char>, needle: Seq<char>) -> bool {
    exists|i: int| occurs_at(hay, needle, i)
}

/// Whether `needle` occurs in `hay` at the one position `i`, checked
/// character by character.
fn matches_at(hay: &str, hay_len: usize, needle: &str, needle_len: usize, i: usize) -> (r: bool)
    requires
        hay_len == hay@.len(),
        needle_len == needle@.len(),
        i + needle_len <= hay_len,
    ensures
        r == occurs_at(hay@, needle@, i as int),
{
    let mut j: usize = 0;
    while j < needle_len
        invariant
            hay_len == hay@.len(),
            needle_len == needle@.len(),
            i + needle_len <= hay_len,
            0 <= j <= needle_len,
            forall|k: int| 0 <= k < j ==> hay@[i + k] == needle@[k],
        decreases needle_len - j,
    {
        if hay.get_char(i + j) != needle.get_char(j) {
            proof {
                assert(hay@.subrange(i as int, i + needle@.len())[j as int] != needle@[j as int]);
            }
            return false;
        }
        j += 1;
    }
    proof {
        assert(hay@.subrange(i as int, i + needle@.len()) =~= needle@);
    }
    true
}

/// Substring search: does `needle` occur anywhere in `hay`?
pub fn contains_str(hay: &str, needle: &str) -> (r: bool)
    ensures
        r == contains_seq(hay@, needle@),
{
    let hay_len = hay.unicode_len();
    let needle_len = needle.unicode_len();
    if needle_len > hay_len {
        proof {
            assert(forall|i: int| !occurs_at(hay@, needle@, i));
        }
        return false;
    }
    if needle_len == 0 {
        proof {
            assert(hay@.subrange(0, 0) =~= needle@);
            assert(occurs_at(hay@, needle@, 0));
        }
        return true;
    }
    let mut i: usize = 0;
    while i <= hay_len - needle_len
        invariant
            hay_len == hay@.len(),
            needle_len == needle@.len(),
            1 <= needle_len <= hay_len,
            0 <= i <= hay_len - needle_len + 1,
            forall|k: int| 0 <= k < i ==> !occurs_at(hay@, needle@, k),
        decreases hay_len - i,
    {
        if matches_at(hay, hay_len, needle, needle_len, i) {
            return true;
        }
        i += 1;
    }
    proof {
        assert(forall|k: int| occurs_at(hay@, needle@, k) ==> 0 <= k < i);
    }
    false
}

} // verus!
