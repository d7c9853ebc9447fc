//! The extension of a file path, read as `std::path::Path::extension` reads
//! it on Unix: `/` separates components, empty and `.` components are
//! normalised away, and the extension is what follows the last `.` of the
//! final component's name.

use vstd::prelude::*;

verus! {

/// `p[s..e]` is a segment: a maximal run of characters without `/`.
pub open spec fn is_segment(p: Seq<char>, s: int, e: int) -> bool {
    &&& 0 <= s < e <= p.len()
    &&& (s == 0 || p[s - 1] == '/')
    &&& (e == p.len() || p[e] == '/')
    &&& forall|k: int| s <= k < e ==> p[k] != '/'
}

/// Position `k` holds a separator or the whole of a `.` segment; path
/// normalisation drops both.
pub open spec fn is_dropped_at(p: Seq<char>, k: int) -> bool {
    ||| p[k] == '/'
    ||| {
        &&& p[k] == '.'
        &&& (k == 0 || p[k - 1] == '/')
        &&& (k + 1 == p.len() || p[k + 1] == '/')
    }
}

/// `p[s..e]` is the final component of the path: a segment other than `.`
/// after which only separators and `.` segments follow.
pub open spec fn is_final_component(p: Seq<char>, s: int, e: int) -> bool {
    &&& is_segment(p, s, e)
    &&& p.subrange(s, e) != seq!['.']
    &&& forall|k: int| e <= k < p.len() ==> #[trigger] is_dropped_at(p, k)
}

/// The file name of a path: its final component, unless there is none or it
/// is `..`.
pub open spec fn spec_file_name(p: Seq<char>) -> Option<Seq<char>> {
    if exists|s: int, e: int| is_final_component(p, s, e) {
        let (s, e) = choose|s: int, e: int| is_final_component(p, s, e);
        if p.subrange(s, e) == seq!['.', '.'] {
            None
        } else {
            Some(p.subrange(s, e))
        }
    } else {
        None
    }
}

/// `f[i]` is the last `.` of `f`.
pub open spec fn is_last_dot(f: Seq<char>, i: int) -> bool {
    &&& 0 <= i < f.len()
    &&& f[i] == '.'
    &&& forall|j: int| i < j < f.len() ==> f[j] != '.'
}

/// The extension of a file name: what follows its last `.`, where that dot
/// is not the name's first character.
pub open spec fn spec_name_extension(f: Seq<char>) -> Option<Seq<char>> {
    if exists|i: int| is_last_dot(f, i) {
        let i: int = choose|i: int| is_last_dot(f, i);
        if i == 0 {
            None
        } else {
            Some(f.subrange(i + 1, f.len() as int))
        }
    } else {
        None
    }
}

/// The extension of a path: that of its file name, if it has one.
pub open spec fn spec_path_extension(p: Seq<char>) -> Option<Seq<char>> {
    match spec_file_name(p) {
        Some(f) => spec_name_extension(f),
        None => None,
    }
}

/// The view of an optional string slice.
pub open spec fn opt_str_view(o: Option<&str>) -> Option<Seq<char>> {
    match o {
        Some(x) => Some(x@),
        None => None,
    }
}

/// A path has at most one final component.
pub proof fn lemma_final_component_unique(p: Seq<char>, s1: int, e1: int, s2: int, e2: int)
    requires
        is_final_component(p, s1, e1),
        is_final_component(p, s2, e2),
    ensures
        s1 == s2,
        e1 == e2,
{
    if e1 < e2 {
        lemma_dropped_segment_is_dot(p, s2, e2, e1);
    } else if e2 < e1 {
        lemma_dropped_segment_is_dot(p, s1, e1, e2);
    }
    if s1 < s2 {
        assert(p[s2 - 1] == '/');
    } else if s2 < s1 {
        assert(p[s1 - 1] == '/');
    }
}

/// A segment lying wholly among dropped positions is a `.` segment.
proof fn lemma_dropped_segment_is_dot(p: Seq<char>, s: int, e: int, from: int)
    requires
        is_segment(p, s, e),
        from <= s,
        forall|k: int| from <= k < p.len() ==> #[trigger] is_dropped_at(p, k),
    ensures
        p.subrange(s, e) == seq!['.'],
{
    assert(is_dropped_at(p, s));
    assert(p[s] == '.');
    if e > s + 1 {
        assert(p[s + 1] != '/');
    }
    assert(e == s + 1);
    assert(p.subrange(s, e) =~= seq!['.']);
}

/// A name has at most one last dot.
proof fn lemma_last_dot_unique(f: Seq<char>, i: int, j: int)
    requires
        is_last_dot(f, i),
        is_last_dot(f, j),
    ensures
        i == j,
{
}

/// A path whose last component is `stem.ext`, where neither part holds `/`,
/// the stem is not empty and the extension holds no `.` and is not empty,
/// has the extension `ext`, whatever directory precedes it.
pub proof fn lemma_extension_of_named_file(dir: Seq<char>, stem: Seq<char>, ext: Seq<char>)
    requires
        dir.len() == 0 || dir.last() == '/',
        stem.len() > 0,
        ext.len() > 0,
        forall|i: int| 0 <= i < stem.len() ==> stem[i] != '/',
        forall|i: int| 0 <= i < ext.len() ==> ext[i] != '/' && ext[i] != '.',
    ensures
        spec_path_extension(dir + stem + seq!['.'] + ext) == Some(ext),
{
    let f = stem + seq!['.'] + ext;
    let p = dir + stem + seq!['.'] + ext;
    assert(p =~= dir + f);
    let s: int = dir.len() as int;
    let e: int = p.len() as int;
    assert forall|k: int| s <= k < e implies p[k] != '/' by {
        assert(p[k] == f[k - s]);
        if k - s < stem.len() {
            assert(f[k - s] == stem[k - s]);
        } else if k - s > stem.len() {
            assert(f[k - s] == ext[k - s - stem.len() - 1]);
        }
    }
    assert(p.subrange(s, e) =~= f);
    assert(f.len() >= 3);
    assert(is_final_component(p, s, e));
    let (cs, ce) = choose|s: int, e: int| is_final_component(p, s, e);
    lemma_final_component_unique(p, s, e, cs, ce);
    assert(f != seq!['.', '.']) by {
        if f == seq!['.', '.'] {
            assert(f.len() == 2);
        }
    }
    assert(spec_file_name(p) == Some(f));
    let d: int = stem.len() as int;
    assert forall|j: int| d < j < f.len() implies f[j] != '.' by {
        assert(f[j] == ext[j - d - 1]);
    }
    assert(is_last_dot(f, d));
    let c: int = choose|c: int| is_last_dot(f, c);
    lemma_last_dot_unique(f, d, c);
    assert(f.subrange(d + 1, f.len() as int) =~= ext);
}

/// Locates the final component of `path`, as a range of character positions.
fn final_component(path: &str) -> (r: Option<(usize, usize)>)
    ensures
        match r {
            Some((s, e)) => is_final_component(path@, s as int, e as int),
            None => forall|s: int, e: int| !is_final_component(path@, s, e),
        },
{
    let ghost p = path@;
    let n: usize = path.unicode_len();
    let mut end: usize = n;
    loop
        invariant
            n == p.len(),
            p == path@,
            end <= n,
            end == n || p[end as int] == '/' || (p[end as int] == '.' && (end == 0 || p[end
                - 1] == '/')),
            forall|k: int| end <= k < n ==> #[trigger] is_dropped_at(p, k),
        decreases end,
    {
        if end == 0 {
            assert forall|s: int, e: int| !is_final_component(p, s, e) by {
                if is_final_component(p, s, e) {
                    lemma_dropped_segment_is_dot(p, s, e, 0);
                }
            }
            return None;
        }
        if path.get_char(end - 1) == '/' {
            assert(is_dropped_at(p, end - 1));
            end = end - 1;
        } else {
            let mut s: usize = end - 1;
            while s > 0 && path.get_char(s - 1) != '/'
                invariant
                    n == p.len(),
                    p == path@,
                    s < end <= n,
                    forall|k: int| s <= k < end ==> p[k] != '/',
                decreases s,
            {
                s = s - 1;
            }
            if end - s == 1 && path.get_char(s) == '.' {
                assert(is_dropped_at(p, s as int));
                end = s;
            } else {
                assert(is_segment(p, s as int, end as int));
                assert(p.subrange(s as int, end as int) != seq!['.']) by {
                    if p.subrange(s as int, end as int) == seq!['.'] {
                        assert(p.subrange(s as int, end as int).len() == 1);
                        assert(p.subrange(s as int, end as int)[0] == p[s as int]);
                    }
                }
                return Some((s, end));
            }
        }
    }
}

/// The extension of `path`, as `std::path::Path::extension` gives it on Unix.
pub fn path_extension(path: &str) -> (r: Option<&str>)
    ensures
        opt_str_view(r) == spec_path_extension(path@),
{
    let ghost p = path@;
    match final_component(path) {
        None => {
            assert(spec_file_name(p).is_none());
            None
        },
        Some((s, e)) => {
            proof {
                let (cs, ce) = choose|s: int, e: int| is_final_component(p, s, e);
                lemma_final_component_unique(p, s as int, e as int, cs, ce);
            }
            let ghost f = p.subrange(s as int, e as int);
            if e - s == 2 && path.get_char(s) == '.' && path.get_char(s + 1) == '.' {
                assert(f =~= seq!['.', '.']);
                return None;
            }
            assert(f != seq!['.', '.']) by {
                if f == seq!['.', '.'] {
                    assert(f.len() == 2);
                    assert(f[0] == p[s as int]);
                    assert(f[1] == p[s + 1]);
                }
            }
            assert(spec_file_name(p) == Some(f));
            let mut i: usize = e;
            while i > s
                invariant
                    p == path@,
                    s < e <= p.len(),
                    s <= i <= e,
                    f == p.subrange(s as int, e as int),
                    spec_file_name(p) == Some(f),
                    forall|j: int| i <= j < e ==> p[j] != '.',
                decreases i,
            {
                if path.get_char(i - 1) == '.' {
                    let k: usize = i - 1;
                    proof {
                        assert(is_last_dot(f, k - s));
                        let c: int = choose|c: int| is_last_dot(f, c);
                        lemma_last_dot_unique(f, k - s, c);
                    }
                    if k == s {
                        return None;
                    }
                    let x = path.substring_char(k + 1, e);
                    assert(x@ =~= f.subrange(k - s + 1, f.len() as int));
                    return Some(x);
                }
                i = i - 1;
            }
            assert forall|c: int| !is_last_dot(f, c) by {
                if is_last_dot(f, c) {
                    assert(p[s + c] == '.');
                }
            }
            None
        },
    }
}

} // verus!
