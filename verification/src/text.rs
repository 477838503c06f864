//! Text helpers: removing surrounding white space.

use vstd::prelude::*;
use vstd::string::*;

verus! {

/// Whether `c` has the Unicode `White_Space` property, the set of characters
/// that Rust's `char::is_whitespace` and `str::trim` treat as white space.
pub open spec fn is_white_space(c: char) -> bool {
    let v = c as u32;
    ||| 0x09 <= v <= 0x0d
    ||| v == 0x20
    ||| v == 0x85
    ||| v == 0xa0
    ||| v == 0x1680
    ||| 0x2000 <= v <= 0x200a
    ||| v == 0x2028
    ||| v == 0x2029
    ||| v == 0x202f
    ||| v == 0x205f
    ||| v == 0x3000
}

/// Index of the first character at or after `i` that is not white space
/// (`s.len()` where there is none).
pub open spec fn content_start(s: Seq<char>, i: int) -> int
    decreases s.len() - i,
{
    if 0 <= i < s.len() && is_white_space(s[i]) {
        content_start(s, i + 1)
    } else {
        i
    }
}

/// One past the index of the last character before `j` and at or after `lo`
/// that is not white space (`lo` where there is none).
pub open spec fn content_end(s: Seq<char>, lo: int, j: int) -> int
    decreases j - lo,
{
    if lo < j && j <= s.len() && is_white_space(s[j - 1]) {
        content_end(s, lo, j - 1)
    } else {
        j
    }
}

/// `s` without its leading and trailing white space.
pub open spec fn trimmed(s: Seq<char>) -> Seq<char> {
    let start = content_start(s, 0);
    s.subrange(start, content_end(s, start, s.len() as int))
}

/// Whether every character of `s` is white space.
pub open spec fn all_white_space(s: Seq<char>) -> bool {
    forall|k: int| 0 <= k < s.len() ==> is_white_space(#[trigger] s[k])
}

/// Spaces, tabs, line and carriage returns are white space; the letters,
/// digits and punctuation that make up file paths are not.
pub proof fn white_space_of_path_text(c: char)
    ensures
        c == ' ' || c == '\t' || c == '\n' || c == '\r' ==> is_white_space(c),
        ('0' <= c <= '9') || ('a' <= c <= 'z') || ('A' <= c <= 'Z') || c == '/' || c == '.' || c == '_'
            || c == '-' ==> !is_white_space(c),
{
}

/// Whether `c` is white space in the sense of `is_white_space`.
pub fn char_is_white_space(c: char) -> (b: bool)
    ensures
        b == is_white_space(c),
{
    let v = c as u32;
    (0x09 <= v && v <= 0x0d) || v == 0x20 || v == 0x85 || v == 0xa0 || v == 0x1680
        || (0x2000 <= v && v <= 0x200a) || v == 0x2028 || v == 0x2029 || v == 0x202f
        || v == 0x205f || v == 0x3000
}

/// `s` with its leading and trailing white space removed.
pub fn trim_white_space(s: &str) -> (t: String)
    ensures
        t@ == trimmed(s@),
{
    let len = s.unicode_len();
    let mut start: usize = 0;
    while start < len && char_is_white_space(s.get_char(start))
        invariant
            len == s@.len(),
            start <= len,
            content_start(s@, start as int) == content_start(s@, 0),
        decreases len - start,
    {
        start = start + 1;
    }
    let mut end: usize = len;
    while start < end && char_is_white_space(s.get_char(end - 1))
        invariant
            len == s@.len(),
            start <= end <= len,
            content_start(s@, 0) == start,
            content_end(s@, start as int, end as int) == content_end(s@, start as int, len as int),
        decreases end - start,
    {
        end = end - 1;
    }
    String::from_str(s.substring_char(start, end))
}

proof fn lemma_content_start(s: Seq<char>, i: int)
    requires
        0 <= i <= s.len(),
    ensures
        i <= content_start(s, i) <= s.len(),
        forall|k: int| i <= k < content_start(s, i) ==> is_white_space(#[trigger] s[k]),
        content_start(s, i) < s.len() ==> !is_white_space(s[content_start(s, i)]),
    decreases s.len() - i,
{
    if i < s.len() && is_white_space(s[i]) {
        lemma_content_start(s, i + 1);
    }
}

proof fn lemma_content_end(s: Seq<char>, lo: int, j: int)
    requires
        0 <= lo <= j <= s.len(),
    ensures
        lo <= content_end(s, lo, j) <= j,
        forall|k: int| content_end(s, lo, j) <= k < j ==> is_white_space(#[trigger] s[k]),
        lo < content_end(s, lo, j) ==> !is_white_space(s[content_end(s, lo, j) - 1]),
    decreases j - lo,
{
    if lo < j && is_white_space(s[j - 1]) {
        lemma_content_end(s, lo, j - 1);
    }
}

/// Trimming takes away white space only, and all of it at both ends: `s` is
/// white space, then the trimmed text, then white space, and the trimmed
/// text neither starts nor ends with white space.
pub proof fn trimmed_removes_exactly_surrounding_white_space(s: Seq<char>)
    ensures
        exists|front: Seq<char>, back: Seq<char>|
            all_white_space(front) && all_white_space(back) && s == front + trimmed(s) + back,
        trimmed(s).len() > 0 ==> !is_white_space(trimmed(s)[0]) && !is_white_space(
            trimmed(s)[trimmed(s).len() - 1],
        ),
{
    let start = content_start(s, 0);
    lemma_content_start(s, 0);
    let end = content_end(s, start, s.len() as int);
    lemma_content_end(s, start, s.len() as int);
    let front = s.subrange(0, start);
    let back = s.subrange(end, s.len() as int);
    assert(s =~= front + trimmed(s) + back);
    assert(all_white_space(front));
    assert(all_white_space(back));
}

} // verus!
