//! Character and string utilities shared by the decision engine.
//!
//! Everything here works on `&str` values through their `Seq<char>` views,
//! so the rest of the library can state its contracts directly over
//! character sequences.

use vstd::prelude::*;
use vstd::string::StrSliceExecFns;

verus! {

/// A character with the Unicode `White_Space` property, the set that
/// `str::trim` strips from either end of a string.
pub open spec fn is_whitespace_char(c: char) -> bool {
    let u = c as u32;
    u == 0x20 || (0x09 <= u && u <= 0x0D) || u == 0x85 || u == 0xA0 || u == 0x1680 || (0x2000
        <= u && u <= 0x200A) || u == 0x2028 || u == 0x2029 || u == 0x202F || u == 0x205F || u
        == 0x3000
}

/// A string that is empty or consists of whitespace only; such a string
/// trims down to nothing and is never accepted as a session identifier.
pub open spec fn is_blank_seq(s: Seq<char>) -> bool {
    forall|i: int| 0 <= i < s.len() ==> is_whitespace_char(s[i])
}

/// `p` is a prefix of `s`.
pub open spec fn starts_with_seq(s: Seq<char>, p: Seq<char>) -> bool {
    p.len() <= s.len() && forall|i: int| 0 <= i < p.len() ==> s[i] == p[i]
}

pub fn whitespace_char(c: char) -> (r: bool)
    ensures
        r == is_whitespace_char(c),
{
    let u = c as u32;
    u == 0x20 || (0x09 <= u && u <= 0x0D) || u == 0x85 || u == 0xA0 || u == 0x1680 || (0x2000
        <= u && u <= 0x200A) || u == 0x2028 || u == 0x2029 || u == 0x202F || u == 0x205F || u
        == 0x3000
}

pub fn is_blank(s: &str) -> (r: bool)
    ensures
        r == is_blank_seq(s@),
{
    let n = s.unicode_len();
    let mut i: usize = 0;
    while i < n
        invariant
            i <= n,
            n == s@.len(),
            forall|j: int| 0 <= j < i ==> is_whitespace_char(s@[j]),
        decreases n - i,
    {
        let c = s.get_char(i);
        if !whitespace_char(c) {
            return false;
        }
        i = i + 1;
    }
    true
}

pub fn str_eq(a: &str, b: &str) -> (r: bool)
    ensures
        r == (a@ == b@),
{
    let na = a.unicode_len();
    let nb = b.unicode_len();
    if na != nb {
        return false;
    }
    let mut i: usize = 0;
    while i < na
        invariant
            i <= na,
            na == a@.len(),
            nb == b@.len(),
            na == nb,
            forall|j: int| 0 <= j < i ==> a@[j] == b@[j],
        decreases na - i,
    {
        if a.get_char(i) != b.get_char(i) {
            return false;
        }
        i = i + 1;
    }
    proof {
        assert(a@ =~= b@);
    }
    true
}

/// Start of the path segment of `p` that ends at `end`: the position
/// right after the previous `/`, or the start of the string.
pub open spec fn spec_seg_start(p: Seq<char>, end: int) -> int
    decreases end,
{
    if end <= 0 {
        0
    } else if p[end - 1] == '/' {
        end
    } else {
        spec_seg_start(p, end - 1)
    }
}

proof fn lemma_seg_start_le(p: Seq<char>, end: int)
    requires
        0 <= end,
    ensures
        0 <= spec_seg_start(p, end) <= end,
        end > 0 && p[end - 1] != '/' ==> spec_seg_start(p, end) < end,
    decreases end,
{
    if end > 0 && p[end - 1] != '/' {
        lemma_seg_start_le(p, end - 1);
    }
}

/// The last path segment of `p[..end]`.  Trailing separators and `.`
/// segments are skipped; the result is `None` when nothing remains or
/// when the last real segment is `..`.  This matches how the platform
/// path API picks a file name out of a Unix path.
pub open spec fn spec_last_segment(p: Seq<char>, end: int) -> Option<Seq<char>>
    decreases end,
    when 0 <= end
    via spec_last_segment_decreases
{
    if end <= 0 {
        None
    } else if p[end - 1] == '/' {
        spec_last_segment(p, end - 1)
    } else {
        let start = spec_seg_start(p, end);
        let seg = p.subrange(start, end);
        if seg == "."@ {
            spec_last_segment(p, start)
        } else if seg == ".."@ {
            None
        } else {
            Some(seg)
        }
    }
}

#[via_fn]
proof fn spec_last_segment_decreases(p: Seq<char>, end: int) {
    if end > 0 && p[end - 1] != '/' {
        lemma_seg_start_le(p, end);
    }
}

/// The last path segment of `path`, as [`spec_last_segment`] describes.
pub fn last_segment(path: &str) -> (r: Option<&str>)
    ensures
        match r {
            Some(s) => spec_last_segment(path@, path@.len() as int) == Some(s@),
            None => spec_last_segment(path@, path@.len() as int) is None,
        },
{
    let n = path.unicode_len();
    let mut end: usize = n;
    loop
        invariant
            end <= n,
            n == path@.len(),
            spec_last_segment(path@, path@.len() as int) == spec_last_segment(path@, end as int),
        decreases end,
    {
        if end == 0 {
            return None;
        }
        if path.get_char(end - 1) == '/' {
            end = end - 1;
            continue;
        }
        let mut start: usize = end;
        while start > 0 && path.get_char(start - 1) != '/'
            invariant
                start <= end,
                end <= n,
                n == path@.len(),
                0 < end,
                path@[end as int - 1] != '/',
                spec_seg_start(path@, end as int) == spec_seg_start(path@, start as int),
            decreases start,
        {
            start = start - 1;
        }
        proof {
            lemma_seg_start_le(path@, end as int);
        }
        let seg = path.substring_char(start, end);
        if str_eq(seg, ".") {
            end = start;
            continue;
        }
        if str_eq(seg, "..") {
            return None;
        }
        return Some(seg);
    }
}

pub fn str_starts_with(s: &str, p: &str) -> (r: bool)
    ensures
        r == starts_with_seq(s@, p@),
{
    let ns = s.unicode_len();
    let np = p.unicode_len();
    if np > ns {
        return false;
    }
    let mut i: usize = 0;
    while i < np
        invariant
            i <= np,
            np <= ns,
            ns == s@.len(),
            np == p@.len(),
            forall|j: int| 0 <= j < i ==> s@[j] == p@[j],
        decreases np - i,
    {
        if s.get_char(i) != p.get_char(i) {
            return false;
        }
        i = i + 1;
    }
    true
}

} // verus!
