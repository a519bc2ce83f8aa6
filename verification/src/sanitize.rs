//! Masking of sensitive values before they are shown: target ids keep
//! only a short suffix, listen addresses keep only the port unless they
//! are local.

use vstd::prelude::*;
use vstd::string::{StrSliceExecFns, StringExecFns};
use crate::text::{starts_with_seq, str_starts_with};

verus! {

/// A masked target id: a `wxid_`-prefixed id keeps the prefix and its
/// last three characters; any other id keeps its first six and last
/// three; ids too short to mask meaningfully stay as they are.
pub open spec fn spec_sanitize_wxid(w: Seq<char>) -> Seq<char> {
    if w.len() == 0 {
        Seq::<char>::empty()
    } else if starts_with_seq(w, "wxid_"@) {
        if w.len() < 8 {
            w
        } else {
            "wxid_***"@ + w.subrange(w.len() - 3, w.len() as int)
        }
    } else {
        if w.len() <= 9 {
            w
        } else {
            w.subrange(0, 6) + "***"@ + w.subrange(w.len() - 3, w.len() as int)
        }
    }
}

/// Masks a target id as [`spec_sanitize_wxid`] describes.
pub fn sanitize_wxid(wxid: &str) -> (r: String)
    ensures
        r@ == spec_sanitize_wxid(wxid@),
{
    proof {
        reveal_strlit("wxid_");
    }
    let n = wxid.unicode_len();
    if n == 0 {
        return String::new();
    }
    if str_starts_with(wxid, "wxid_") {
        if n < 8 {
            return wxid.to_owned();
        }
        let suffix = wxid.substring_char(n - 3, n);
        let mut out = "wxid_***".to_owned();
        out.append(suffix);
        proof {
            assert(out@ =~= spec_sanitize_wxid(wxid@));
        }
        out
    } else {
        if n <= 9 {
            return wxid.to_owned();
        }
        let prefix = wxid.substring_char(0, 6);
        let suffix = wxid.substring_char(n - 3, n);
        let mut out = prefix.to_owned();
        out.append("***");
        out.append(suffix);
        proof {
            assert(out@ =~= spec_sanitize_wxid(wxid@));
        }
        out
    }
}

/// A local address, left unmasked: anything under the wildcard,
/// loopback or localhost names.
pub open spec fn spec_is_local_addr(a: Seq<char>) -> bool {
    starts_with_seq(a, "0.0.0.0"@) || starts_with_seq(a, "127.0.0.1"@) || starts_with_seq(
        a,
        "localhost"@,
    ) || starts_with_seq(a, "::1"@)
}

/// Index of the last `:` of `a[..end]`, or a negative value when there
/// is none.
pub open spec fn spec_rfind_colon(a: Seq<char>, end: int) -> int
    decreases end,
{
    if end <= 0 {
        -1
    } else if a[end - 1] == ':' {
        end - 1
    } else {
        spec_rfind_colon(a, end - 1)
    }
}

/// A masked listen address: local addresses stay as they are; any other
/// address becomes the wildcard mask, keeping the port when the address
/// has one.
pub open spec fn spec_sanitize_listen_addr(a: Seq<char>) -> Seq<char> {
    if spec_is_local_addr(a) {
        a
    } else {
        let j = spec_rfind_colon(a, a.len() as int);
        if j >= 0 {
            "*.*.*.*:"@ + a.subrange(j + 1, a.len() as int)
        } else {
            "*.*.*.*"@
        }
    }
}

/// Masks a listen address as [`spec_sanitize_listen_addr`] describes.
pub fn sanitize_listen_addr(addr: &str) -> (r: String)
    ensures
        r@ == spec_sanitize_listen_addr(addr@),
{
    if str_starts_with(addr, "0.0.0.0") || str_starts_with(addr, "127.0.0.1") || str_starts_with(
        addr,
        "localhost",
    ) || str_starts_with(addr, "::1") {
        return addr.to_owned();
    }
    let n = addr.unicode_len();
    let mut i: usize = n;
    while i > 0
        invariant
            i <= n,
            n == addr@.len(),
            !spec_is_local_addr(addr@),
            spec_rfind_colon(addr@, n as int) == spec_rfind_colon(addr@, i as int),
        decreases i,
    {
        if addr.get_char(i - 1) == ':' {
            let port = addr.substring_char(i, n);
            let mut out = "*.*.*.*:".to_owned();
            out.append(port);
            proof {
                assert(out@ =~= spec_sanitize_listen_addr(addr@));
            }
            return out;
        }
        i = i - 1;
    }
    "*.*.*.*".to_owned()
}

} // verus!
