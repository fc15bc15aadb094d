//! File-system paths held as strings, joined the way a Unix `PathBuf::push` joins them,
//! and read apart the way a Unix `Path` reads its components.

use vstd::prelude::*;
use crate::text::{substring, last_index_of, last_piece, lemma_last_index_of};

verus! {

/// `rel` appended to `base`: an absolute `rel` replaces `base`; otherwise a `/`
/// separates the two unless `base` is empty or already ends in `/`.
pub open spec fn joined(base: Seq<char>, rel: Seq<char>) -> Seq<char> {
    if rel.len() > 0 && rel[0] == '/' {
        rel
    } else if base.len() == 0 || base.last() == '/' {
        base + rel
    } else {
        base + seq!['/'] + rel
    }
}

/// `rel` joined onto `base`.
pub fn join_path(base: &str, rel: &str) -> (r: String)
    ensures
        r@ == joined(base@, rel@),
{
    let n = base.unicode_len();
    let m = rel.unicode_len();
    if m > 0 && rel.get_char(0) == '/' {
        return substring(rel, 0, m);
    }
    let mut out = substring(base, 0, n);
    if n > 0 && base.get_char(n - 1) != '/' {
        let sep = "/";
        proof {
            reveal_strlit("/");
        }
        out.append(sep);
    }
    out.append(rel);
    assert(base@.subrange(0, n as int) =~= base@);
    assert(rel@.subrange(0, m as int) =~= rel@);
    out
}


/// The text after the last `/` of `path` (all of it when there is none).
pub open spec fn last_segment(path: Seq<char>) -> Seq<char> {
    last_piece(path, '/')
}

/// The text before the last `/` of `path`; empty when there is none.
pub open spec fn before_last_segment(path: Seq<char>) -> Seq<char> {
    if last_index_of(path, '/') < 0 {
        Seq::empty()
    } else {
        path.subrange(0, last_index_of(path, '/'))
    }
}

/// The final component of a Unix path, as `Path::file_name` gives it. Repeated and
/// trailing separators and `.` segments are passed over; the last segment left is the
/// name, and there is none when that segment is `..` or no segment is left.
pub open spec fn final_component(path: Seq<char>) -> Option<Seq<char>>
    decreases path.len(),
{
    let seg = last_segment(path);
    if seg.len() == 0 || seg == seq!['.'] {
        if last_index_of(path, '/') < 0 {
            None
        } else {
            proof {
                lemma_last_index_of(path, '/');
            }
            final_component(path.subrange(0, last_index_of(path, '/')))
        }
    } else if seg == seq!['.', '.'] {
        None
    } else {
        Some(seg)
    }
}

/// A segment that a Unix path reads as an ordinary name: not empty, not `.` or `..`, and
/// without `/`.
pub open spec fn is_plain_segment(seg: Seq<char>) -> bool {
    &&& seg.len() > 0
    &&& seg != seq!['.']
    &&& seg != seq!['.', '.']
    &&& forall|i: int| 0 <= i < seg.len() ==> seg[i] != '/'
}

/// A path `dir/name` whose name is a plain segment and whose directory part is not empty
/// and ends neither in `/` nor in a `.` segment: its parent is exactly that directory part.
pub open spec fn has_plain_parent(path: Seq<char>) -> bool {
    let dir = before_last_segment(path);
    &&& last_index_of(path, '/') > 0
    &&& is_plain_segment(last_segment(path))
    &&& dir.last() != '/'
    &&& last_segment(dir) != seq!['.']
}

/// A relative path joined onto a base keeps the base in front and itself at the end; an
/// absolute one replaces the base.
pub proof fn lemma_joined(base: Seq<char>, rel: Seq<char>)
    ensures
        rel.len() > 0 && rel[0] == '/' ==> joined(base, rel) == rel,
        !(rel.len() > 0 && rel[0] == '/') ==> joined(base, rel).subrange(0, base.len() as int) == base
            && joined(base, rel).subrange(joined(base, rel).len() - rel.len(), joined(base, rel).len() as int)
            == rel,
{
    if !(rel.len() > 0 && rel[0] == '/') {
        let j = joined(base, rel);
        assert(j.subrange(0, base.len() as int) =~= base);
        assert(j.subrange(j.len() - rel.len(), j.len() as int) =~= rel);
    }
}

} // verus!
