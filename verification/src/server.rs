//! The session registry consulted by the transcript server, and the path
//! check that keeps its static-file routes inside the assets directory.
//!
//! The registry itself is a snapshot: the binary loads the stored map,
//! lets the verified logic read and update it, and writes it back,
//! ignoring failures — a lost registration never blocks a decision.

use vstd::prelude::*;
use vstd::string::StrSliceExecFns;
use crate::text::str_eq;

verus! {

/// The registered pairs read as a map: later registrations of the same
/// session win.
pub open spec fn as_map(m: Seq<(Seq<char>, Seq<char>)>) -> Map<Seq<char>, Seq<char>>
    decreases m.len(),
{
    if m.len() == 0 {
        Map::<Seq<char>, Seq<char>>::empty()
    } else {
        as_map(m.drop_last()).insert(m.last().0, m.last().1)
    }
}

proof fn lemma_as_map_last_match(m: Seq<(Seq<char>, Seq<char>)>, k: Seq<char>, j: int)
    requires
        0 <= j < m.len(),
        m[j].0 == k,
        forall|l: int| j < l < m.len() ==> m[l].0 != k,
    ensures
        as_map(m).contains_key(k),
        as_map(m)[k] == m[j].1,
    decreases m.len(),
{
    if j + 1 < m.len() {
        lemma_as_map_last_match(m.drop_last(), k, j);
    }
}

proof fn lemma_as_map_absent(m: Seq<(Seq<char>, Seq<char>)>, k: Seq<char>)
    requires
        forall|l: int| 0 <= l < m.len() ==> m[l].0 != k,
    ensures
        !as_map(m).contains_key(k),
    decreases m.len(),
{
    if m.len() > 0 {
        lemma_as_map_absent(m.drop_last(), k);
    }
}

/// Session-to-transcript-path registry: maps a session id to the path of
/// its transcript file.
pub struct SessionRegistry {
    sessions: Vec<(String, String)>,
}

impl View for SessionRegistry {
    type V = Map<Seq<char>, Seq<char>>;

    closed spec fn view(&self) -> Map<Seq<char>, Seq<char>> {
        as_map(self.sessions.deep_view())
    }
}

impl SessionRegistry {
    /// An empty registry; the binary fills it from the stored map with
    /// one [`SessionRegistry::register`] call per entry.
    pub fn new() -> (r: SessionRegistry)
        ensures
            r@ == Map::<Seq<char>, Seq<char>>::empty(),
    {
        SessionRegistry { sessions: Vec::new() }
    }

    /// Records `session_id -> transcript_path`, replacing any earlier
    /// registration of the same session.
    pub fn register(&mut self, session_id: String, transcript_path: String)
        ensures
            final(self)@ == old(self)@.insert(session_id@, transcript_path@),
    {
        let ghost before = self.sessions.deep_view();
        self.sessions.push((session_id, transcript_path));
        proof {
            assert(self.sessions.deep_view() =~= before.push(
                (session_id@, transcript_path@),
            ));
            assert(self.sessions.deep_view().drop_last() =~= before);
        }
    }

    /// The transcript path registered for `session_id`, if any.
    pub fn get(&self, session_id: &str) -> (r: Option<&String>)
        ensures
            match r {
                Some(p) => self@.contains_key(session_id@) && self@[session_id@] == p@,
                None => !self@.contains_key(session_id@),
            },
    {
        let n = self.sessions.len();
        let mut i: usize = n;
        while i > 0
            invariant
                i <= n,
                n == self.sessions.len(),
                forall|l: int|
                    i <= l < n ==> self.sessions.deep_view()[l].0 != session_id@,
            decreases i,
        {
            i = i - 1;
            if str_eq(self.sessions[i].0.as_str(), session_id) {
                proof {
                    lemma_as_map_last_match(
                        self.sessions.deep_view(),
                        session_id@,
                        i as int,
                    );
                }
                return Some(&self.sessions[i].1);
            }
        }
        proof {
            lemma_as_map_absent(self.sessions.deep_view(), session_id@);
        }
        None
    }

    /// The recorded pairs, oldest first, for the binary to persist.
    /// Read through [`as_map`], they are exactly this registry.
    pub fn entries(&self) -> (r: &Vec<(String, String)>)
        ensures
            as_map(r.deep_view()) == self@,
    {
        &self.sessions
    }
}

/// Index of the first separator at or after `i`, or the end of the path.
pub open spec fn spec_seg_end(p: Seq<char>, i: int) -> int
    decreases p.len() - i,
    when 0 <= i <= p.len()
{
    if i >= p.len() {
        p.len() as int
    } else if p[i] == '/' {
        i
    } else {
        spec_seg_end(p, i + 1)
    }
}

proof fn lemma_seg_end_bounds(p: Seq<char>, i: int)
    requires
        0 <= i <= p.len(),
    ensures
        i <= spec_seg_end(p, i) <= p.len(),
    decreases p.len() - i,
{
    if i < p.len() && p[i] != '/' {
        lemma_seg_end_bounds(p, i + 1);
    }
}

/// The path split at separators, starting from `i`: always at least one
/// segment, and empty segments where separators touch.
pub open spec fn spec_segments_from(p: Seq<char>, i: int) -> Seq<Seq<char>>
    decreases p.len() - i,
    when 0 <= i <= p.len()
    via spec_segments_from_decreases
{
    let e = spec_seg_end(p, i);
    if e >= p.len() {
        seq![p.subrange(i, p.len() as int)]
    } else {
        seq![p.subrange(i, e)] + spec_segments_from(p, e + 1)
    }
}

#[via_fn]
proof fn spec_segments_from_decreases(p: Seq<char>, i: int) {
    lemma_seg_end_bounds(p, i);
}

pub open spec fn spec_segments(p: Seq<char>) -> Seq<Seq<char>> {
    spec_segments_from(p, 0)
}

/// A path that cannot escape the directory it is resolved under: it is
/// not absolute, does not start with a `.` segment, and has no `..`
/// segment anywhere.  Empty and repeated separators and interior `.`
/// segments are harmless — the platform path API normalizes them away —
/// so they are allowed, as is the empty path.
pub open spec fn spec_safe_relative_path(p: Seq<char>) -> bool {
    &&& p.len() > 0 ==> p[0] != '/'
    &&& spec_segments(p)[0] != "."@
    &&& forall|i: int| 0 <= i < spec_segments(p).len() ==> spec_segments(p)[i] != ".."@
}

/// Checks that `path` stays under the directory it is resolved against.
pub fn is_safe_relative_path(path: &str) -> (r: bool)
    ensures
        r == spec_safe_relative_path(path@),
{
    let n = path.unicode_len();
    if n > 0 && path.get_char(0) == '/' {
        return false;
    }
    let ghost segs = spec_segments(path@);
    let ghost mut done: int = 0;
    let mut first: bool = true;
    let mut i: usize = 0;
    loop
        invariant
            i <= n,
            n == path@.len(),
            n > 0 ==> path@[0] != '/',
            segs == spec_segments(path@),
            0 <= done,
            first == (done == 0),
            first == (i == 0),
            segs.skip(done) =~= spec_segments_from(path@, i as int),
            done + spec_segments_from(path@, i as int).len() == segs.len(),
            forall|k: int| 0 <= k < done ==> segs[k] != ".."@,
            done > 0 ==> segs[0] != "."@,
        decreases n - i,
    {
        let mut e: usize = i;
        while e < n && path.get_char(e) != '/'
            invariant
                i <= e <= n,
                n == path@.len(),
                spec_seg_end(path@, i as int) == spec_seg_end(path@, e as int),
            decreases n - e,
        {
            e = e + 1;
        }
        proof {
            assert(spec_seg_end(path@, i as int) == e as int);
            assert(segs[done] == spec_segments_from(path@, i as int)[0]);
        }
        let seg = path.substring_char(i, e);
        if str_eq(seg, "..") {
            return false;
        }
        if first {
            if str_eq(seg, ".") {
                return false;
            }
        }
        if e == n {
            proof {
                assert(spec_segments_from(path@, i as int).len() == 1);
                assert(segs[done] == seg@);
            }
            return true;
        }
        proof {
            assert(spec_segments_from(path@, i as int) == seq![seg@]
                + spec_segments_from(path@, e + 1));
            assert forall|t: int|
                0 <= t < segs.len() - (done + 1) implies #[trigger] segs.skip(done + 1)[t]
                == spec_segments_from(path@, e + 1)[t] by {
                assert(segs.skip(done + 1)[t] == segs[done + 1 + t]);
                assert(segs.skip(done)[t + 1] == segs[done + 1 + t]);
                assert((seq![seg@] + spec_segments_from(path@, e + 1))[t + 1]
                    == spec_segments_from(path@, e + 1)[t]);
            }
            assert(segs.skip(done + 1) =~= spec_segments_from(path@, e + 1));
            done = done + 1;
        }
        i = e + 1;
        first = false;
    }
}

} // verus!
