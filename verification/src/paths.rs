//! Path reasoning on plain strings.
//!
//! The shell works with slash-separated paths carried as `String`s. The
//! parent of a path is everything before its last `/`; a path without a
//! slash has no parent. Project membership questions are answered against
//! explicit sets of paths handed in by the caller, never by scanning.
use vstd::prelude::*;

verus! {

/// The parent of `s`: the prefix that ends just before the last `/` of `s`,
/// or nothing when `s` holds no `/`.
pub open spec fn parent_of(s: Seq<char>) -> Option<Seq<char>>
    decreases s.len(),
{
    if s.len() == 0 {
        None
    } else if s[s.len() - 1] == '/' {
        Some(s.take(s.len() - 1))
    } else {
        parent_of(s.take(s.len() - 1))
    }
}

/// `child` begins with `parent`, character for character.
pub open spec fn starts_with(child: Seq<char>, parent: Seq<char>) -> bool {
    parent.len() <= child.len() && child.take(parent.len() as int) == parent
}

/// Returns the parent of `path`: everything before the last `/`, or `None`
/// when `path` holds no slash.
pub fn parent_path(path: &String) -> (r: Option<String>)
    ensures
        match r {
            Some(p) => parent_of(path@) == Some(p@),
            None => parent_of(path@) is None,
        },
{
    let s = path.as_str();
    let n = s.unicode_len();
    let mut i = n;
    assert(path@.take(n as int) =~= path@);
    while i > 0
        invariant
            i <= n,
            n == path@.len(),
            s@ == path@,
            parent_of(path@) == parent_of(path@.take(i as int)),
        decreases i,
    {
        if s.get_char(i - 1) == '/' {
            let p = s.substring_char(0, i - 1);
            assert(path@.take(i as int).take(i - 1) == path@.take(i - 1));
            return Some(p.to_owned());
        }
        assert(path@.take(i as int).take(i - 1) == path@.take(i - 1));
        i = i - 1;
    }
    assert(path@.take(0) =~= Seq::<char>::empty());
    None
}

/// Returns whether `child` begins with `parent`.
pub fn has_prefix(child: &String, parent: &String) -> (r: bool)
    ensures
        r == starts_with(child@, parent@),
{
    let c = child.as_str();
    let p = parent.as_str();
    let clen = c.unicode_len();
    let plen = p.unicode_len();
    if plen > clen {
        assert(!starts_with(child@, parent@));
        return false;
    }
    let mut i: usize = 0;
    while i < plen
        invariant
            i <= plen,
            plen == parent@.len(),
            clen == child@.len(),
            plen <= clen,
            c@ == child@,
            p@ == parent@,
            forall|j: int| 0 <= j < i ==> child@[j] == parent@[j],
        decreases plen - i,
    {
        if c.get_char(i) != p.get_char(i) {
            assert(child@.take(plen as int)[i as int] != parent@[i as int]);
            return false;
        }
        i = i + 1;
    }
    assert(child@.take(plen as int) =~= parent@);
    true
}

/// Returns whether `child_str` lies strictly below `parent_str` in the tree:
/// it begins with `parent_str` and the two paths do not share their parent
/// directory.
pub fn is_parent_path(parent_str: &String, child_str: &String) -> (r: bool)
    ensures
        r == (starts_with(child_str@, parent_str@) && parent_of(parent_str@) != parent_of(
            child_str@,
        )),
{
    if !has_prefix(child_str, parent_str) {
        return false;
    }
    let pp = parent_path(parent_str);
    let cp = parent_path(child_str);
    match (pp, cp) {
        (Some(a), Some(b)) => a != b,
        (Some(_), None) => true,
        (None, Some(_)) => true,
        (None, None) => false,
    }
}

/// Returns whether `path` is one of the directories in `manifest_dirs`, the
/// set of directories known to hold a project manifest.
pub fn is_project_path(path: &String, manifest_dirs: &Vec<String>) -> (r: bool)
    ensures
        r == manifest_dirs.deep_view().contains(path@),
{
    contains_string(manifest_dirs, path)
}

/// Returns whether `v` holds a string equal to `x`.
pub fn contains_string(v: &Vec<String>, x: &String) -> (r: bool)
    ensures
        r == v.deep_view().contains(x@),
{
    let mut i: usize = 0;
    while i < v.len()
        invariant
            i <= v.len(),
            forall|j: int| 0 <= j < i ==> v.deep_view()[j] != x@,
        decreases v.len() - i,
    {
        assert(v.deep_view()[i as int] == v@[i as int]@);
        if v[i] == *x {
            return true;
        }
        i = i + 1;
    }
    assert(forall|j: int| 0 <= j < v.deep_view().len() ==> v.deep_view()[j] != x@);
    false
}

} // verus!
