//! Candidate discovery rules: which directory entries are shader
//! candidates, and how a candidate's path is shown relative to the root.
//!
//! Paths are plain strings with `/` as the component separator, as the
//! directory walk hands them over.

use vstd::prelude::*;

verus! {

/// Index of the last occurrence of `c` in `s`, or -1 when `c` does not occur.
pub open spec fn last_index_of(s: Seq<char>, c: char) -> int
    decreases s.len(),
{
    if s.len() == 0 {
        -1
    } else if s.last() == c {
        s.len() - 1
    } else {
        last_index_of(s.drop_last(), c)
    }
}

proof fn lemma_last_index_bounds(s: Seq<char>, c: char)
    ensures
        -1 <= last_index_of(s, c) < s.len(),
    decreases s.len(),
{
    if s.len() > 0 && s.last() != c {
        lemma_last_index_bounds(s.drop_last(), c);
    }
}

/// The shader extension this tool targets, compared case-sensitively.
pub open spec fn target_extension() -> Seq<char> {
    seq!['w', 'g', 's', 'l']
}

/// Does `p` name a file whose extension is exactly the target extension?
/// The extension is the part of the final path component after its last
/// dot; a component without a dot, or whose only dot begins it (a hidden
/// file), has no extension at all.
pub open spec fn is_wgsl_path(p: Seq<char>) -> bool {
    let dot = last_index_of(p, '.');
    let slash = last_index_of(p, '/');
    &&& dot > slash + 1
    &&& p.subrange(dot + 1, p.len() as int) == target_extension()
}

/// A directory entry is a candidate exactly when it is not a directory
/// and its path carries the target extension.
pub open spec fn spec_is_candidate(path: Seq<char>, is_dir: bool) -> bool {
    !is_dir && is_wgsl_path(path)
}

fn find_last(s: &str, c: char) -> (r: Option<usize>)
    ensures
        match r {
            Some(i) => i < s@.len() && last_index_of(s@, c) == i,
            None => last_index_of(s@, c) == -1,
        },
{
    let n = s.unicode_len();
    let mut i: usize = n;
    proof {
        assert(s@.subrange(0, n as int) =~= s@);
    }
    while i > 0
        invariant
            i <= n,
            n == s@.len(),
            last_index_of(s@, c) == last_index_of(s@.subrange(0, i as int), c),
        decreases i,
    {
        i = i - 1;
        let ch = s.get_char(i);
        proof {
            assert(s@.subrange(0, i + 1).last() == s@[i as int]);
            assert(s@.subrange(0, i + 1).drop_last() =~= s@.subrange(0, i as int));
        }
        if ch == c {
            proof {
                lemma_last_index_bounds(s@, c);
            }
            return Some(i);
        }
    }
    proof {
        assert(s@.subrange(0, 0).len() == 0);
    }
    None
}

/// Decides candidacy, exactly as `spec_is_candidate` describes.
pub fn is_candidate(path: &str, is_dir: bool) -> (r: bool)
    ensures
        r == spec_is_candidate(path@, is_dir),
{
    if is_dir {
        return false;
    }
    has_wgsl_extension(path)
}

fn has_wgsl_extension(path: &str) -> (r: bool)
    ensures
        r == is_wgsl_path(path@),
{
    let n = path.unicode_len();
    let dot_opt = find_last(path, '.');
    let slash_opt = find_last(path, '/');
    let d: usize = match dot_opt {
        None => {
            return false;
        },
        Some(d) => d,
    };
    let slash_ok: bool = match slash_opt {
        None => d > 0,
        Some(s) => d > s + 1,
    };
    if !slash_ok {
        return false;
    }
    if n - (d + 1) != 4 {
        proof {
            assert(path@.subrange(d + 1, n as int).len() != target_extension().len());
        }
        return false;
    }
    let c0 = path.get_char(d + 1);
    let c1 = path.get_char(d + 2);
    let c2 = path.get_char(d + 3);
    let c3 = path.get_char(d + 4);
    let ok = c0 == 'w' && c1 == 'g' && c2 == 's' && c3 == 'l';
    proof {
        let ext = path@.subrange(d + 1, n as int);
        assert(ext[0] == path@[d + 1] && ext[1] == path@[d + 2] && ext[2] == path@[d + 3]
            && ext[3] == path@[d + 4]);
        if ok {
            assert(ext =~= target_extension());
        } else {
            assert(ext != target_extension());
        }
    }
    ok
}

/// Does `prefix` begin `p`, character for character?
pub open spec fn starts_with_seq(p: Seq<char>, prefix: Seq<char>) -> bool {
    prefix.len() <= p.len() && p.subrange(0, prefix.len() as int) == prefix
}

/// The path as shown to the user: stripped of `root` and the separator
/// that follows it when the path lies strictly under `root`, else the
/// path unchanged.
pub open spec fn display_path_spec(root: Seq<char>, p: Seq<char>) -> Seq<char> {
    if starts_with_seq(p, root) && p.len() > root.len() {
        if root.len() > 0 && root.last() == '/' {
            p.subrange(root.len() as int, p.len() as int)
        } else if p[root.len() as int] == '/' {
            p.subrange(root.len() as int + 1, p.len() as int)
        } else {
            p
        }
    } else {
        p
    }
}

fn str_starts_with(p: &str, prefix: &str) -> (r: bool)
    ensures
        r == starts_with_seq(p@, prefix@),
{
    let n = prefix.unicode_len();
    let pn = p.unicode_len();
    if n > pn {
        return false;
    }
    let mut i: usize = 0;
    while i < n
        invariant
            i <= n,
            n == prefix@.len(),
            pn == p@.len(),
            n <= pn,
            forall|j: int| 0 <= j < i ==> p@[j] == prefix@[j],
        decreases n - i,
    {
        if p.get_char(i) != prefix.get_char(i) {
            proof {
                assert(p@.subrange(0, n as int)[i as int] == p@[i as int]);
            }
            return false;
        }
        i = i + 1;
    }
    proof {
        assert(p@.subrange(0, n as int) =~= prefix@);
    }
    true
}

/// Renders `path` for display, exactly as `display_path_spec` describes.
pub fn display_path(root: &str, path: &str) -> (r: String)
    ensures
        r@ == display_path_spec(root@, path@),
{
    let rn = root.unicode_len();
    let pn = path.unicode_len();
    if rn < pn && str_starts_with(path, root) {
        if rn > 0 && root.get_char(rn - 1) == '/' {
            path.substring_char(rn, pn).to_owned()
        } else if path.get_char(rn) == '/' {
            path.substring_char(rn + 1, pn).to_owned()
        } else {
            path.to_owned()
        }
    } else {
        path.to_owned()
    }
}

} // verus!
