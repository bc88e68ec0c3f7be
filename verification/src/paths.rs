//! File names and extensions of paths.

use vstd::prelude::*;

verus! {

/// The final component of a path as `std::path::Path::file_name` gives it
/// (`None` when the path ends in `..` or has no final component).
pub uninterp spec fn path_file_name(path: Seq<char>) -> Option<Seq<char>>;

/// The view of an optional string.
pub open spec fn opt_view(o: Option<String>) -> Option<Seq<char>> {
    match o {
        Some(s) => Some(s@),
        None => None,
    }
}

/// A path that every platform splits the same way: only `/` separates its
/// components, and it has no drive or network prefix (no `\\`, no `:`, and it
/// does not begin with `//`).
pub open spec fn plain_path(p: Seq<char>) -> bool {
    &&& forall|i: int| 0 <= i < p.len() ==> p[i] != '\\' && p[i] != ':'
    &&& !(p.len() >= 2 && p[0] == '/' && p[1] == '/')
}

/// The index of the last `/` in a path, or -1 when there is none.
pub open spec fn last_slash(p: Seq<char>) -> int
    decreases p.len(),
{
    if p.len() == 0 {
        -1
    } else if p.last() == '/' {
        p.len() - 1
    } else {
        last_slash(p.drop_last())
    }
}

/// The final component of a plain path, as `Path::file_name` documents it:
/// trailing `/` and `.` components are passed over; the name after the last
/// `/` is the result, unless it is `..` or nothing is left.
pub open spec fn final_name(p: Seq<char>) -> Option<Seq<char>>
    decreases p.len(),
{
    if p.len() == 0 {
        None
    } else if p.last() == '/' {
        final_name(p.drop_last())
    } else if p.last() == '.' && (p.len() == 1 || p[p.len() - 2] == '/') {
        if p.len() == 1 {
            None
        } else {
            final_name(p.drop_last())
        }
    } else if p.last() == '.' && p.len() >= 2 && p[p.len() - 2] == '.' && (p.len() == 2
        || p[p.len() - 3] == '/') {
        None
    } else {
        Some(p.subrange(last_slash(p) + 1, p.len() as int))
    }
}

/// The final component of a path (`Path::file_name`, taken as text). For a
/// plain path this is the name after the last `/`, once trailing `/` and `.`
/// components are passed over, and none when that name is `..` or missing.
#[verifier::external_body]
pub(crate) fn file_name(path: &str) -> (name: Option<String>)
    ensures
        opt_view(name) == path_file_name(path@),
        plain_path(path@) ==> opt_view(name) == final_name(path@),
{
    match std::path::Path::new(path).file_name() {
        Some(name) => name.to_str().map(String::from),
        None => None,
    }
}

/// The index of the last `.` in a name, or -1 when there is none.
pub open spec fn last_dot(name: Seq<char>) -> int
    decreases name.len(),
{
    if name.len() == 0 {
        -1
    } else if name.last() == '.' {
        name.len() - 1
    } else {
        last_dot(name.drop_last())
    }
}

/// The extension of a file name, as the standard library documents it: none
/// when the name has no `.`, none when its only `.` is the first character,
/// otherwise the part after the final `.`.
pub open spec fn extension_of(name: Seq<char>) -> Option<Seq<char>> {
    let d = last_dot(name);
    if d <= 0 {
        None
    } else {
        Some(name.subrange(d + 1, name.len() as int))
    }
}

/// The extension of a path: that of its final component, if it has one.
pub open spec fn path_extension(path: Seq<char>) -> Option<Seq<char>> {
    match path_file_name(path) {
        Some(name) => extension_of(name),
        None => None,
    }
}

/// The last `.` of a name is a `.`, and none follows it.
pub proof fn lemma_last_dot(name: Seq<char>)
    ensures
        -1 <= last_dot(name) < name.len(),
        last_dot(name) >= 0 ==> name[last_dot(name)] == '.',
        forall|j: int| last_dot(name) < j < name.len() ==> name[j] != '.',
    decreases name.len(),
{
    if name.len() > 0 && name.last() != '.' {
        let p = name.drop_last();
        lemma_last_dot(p);
        assert forall|j: int| last_dot(name) < j < name.len() implies name[j] != '.' by {
            if j < name.len() - 1 {
                assert(name[j] == p[j]);
            }
        }
    }
}

/// The extension of a file name.
pub fn name_extension(name: &str) -> (ext: Option<String>)
    ensures
        opt_view(ext) == extension_of(name@),
{
    let n: usize = name.unicode_len();
    let mut i: usize = n;
    while i > 0
        invariant
            n == name@.len(),
            i <= n,
            forall|j: int| i <= j < n ==> name@[j] != '.',
        ensures
            i == 0 || name@[i - 1] == '.',
            forall|j: int| i <= j < n ==> name@[j] != '.',
        decreases i,
    {
        if name.get_char(i - 1) == '.' {
            break;
        }
        i = i - 1;
    }
    proof {
        lemma_last_dot(name@);
        lemma_last_dot_is_last(name@, i as int - 1);
    }
    if i <= 1 {
        None
    } else {
        Some(name.substring_char(i, n).to_string())
    }
}

/// The last `.` of a name is the one after which no `.` follows.
pub proof fn lemma_last_dot_is_last(name: Seq<char>, d: int)
    requires
        -1 <= d < name.len(),
        d >= 0 ==> name[d] == '.',
        forall|j: int| d < j < name.len() ==> name[j] != '.',
    ensures
        last_dot(name) == d,
    decreases name.len(),
{
    if name.len() > 0 && name.last() != '.' {
        let p = name.drop_last();
        if d == name.len() - 1 {
            assert(name[d] == name.last());
        }
        assert(d < p.len());
        assert forall|j: int| d < j < p.len() implies p[j] != '.' by {
            assert(p[j] == name[j]);
        }
        if d >= 0 {
            assert(p[d] == name[d]);
        }
        lemma_last_dot_is_last(p, d);
    } else if name.len() > 0 {
        if d < name.len() - 1 {
            assert(name[name.len() - 1] == name.last());
        }
    }
}

/// The last `/` of a path is a `/`, and none follows it.
proof fn lemma_last_slash(p: Seq<char>)
    ensures
        -1 <= last_slash(p) < p.len(),
        last_slash(p) >= 0 ==> p[last_slash(p)] == '/',
        forall|j: int| last_slash(p) < j < p.len() ==> p[j] != '/',
    decreases p.len(),
{
    if p.len() > 0 && p.last() != '/' {
        let q = p.drop_last();
        lemma_last_slash(q);
        assert forall|j: int| last_slash(p) < j < p.len() implies p[j] != '/' by {
            if j < p.len() - 1 {
                assert(p[j] == q[j]);
            }
        }
    }
}

/// The `/` after which no `/` follows is the last one.
pub proof fn lemma_last_slash_is(p: Seq<char>, d: int)
    requires
        -1 <= d < p.len(),
        d >= 0 ==> p[d] == '/',
        forall|j: int| d < j < p.len() ==> p[j] != '/',
    ensures
        last_slash(p) == d,
    decreases p.len(),
{
    if p.len() > 0 && p.last() != '/' {
        let q = p.drop_last();
        if d == p.len() - 1 {
            assert(p[d] == p.last());
        }
        assert forall|j: int| d < j < q.len() implies q[j] != '/' by {
            assert(q[j] == p[j]);
        }
        if d >= 0 {
            assert(q[d] == p[d]);
        }
        lemma_last_slash_is(q, d);
    } else if p.len() > 0 {
        if d < p.len() - 1 {
            assert(p[p.len() - 1] == p.last());
        }
    }
}

/// Whether a path is plain.
fn is_plain(path: &str) -> (r: bool)
    ensures
        r == plain_path(path@),
{
    let n: usize = path.unicode_len();
    if n >= 2 && path.get_char(0) == '/' && path.get_char(1) == '/' {
        return false;
    }
    let mut i: usize = 0;
    while i < n
        invariant
            n == path@.len(),
            i <= n,
            forall|k: int| 0 <= k < i ==> path@[k] != '\\' && path@[k] != ':',
        decreases n - i,
    {
        let c = path.get_char(i);
        if c == '\\' || c == ':' {
            return false;
        }
        i = i + 1;
    }
    true
}

/// The final component of a plain path, computed by the rule `final_name`
/// states.
pub fn final_component(path: &str) -> (name: Option<String>)
    ensures
        opt_view(name) == final_name(path@),
{
    let n: usize = path.unicode_len();
    let mut e: usize = n;
    assert(path@.subrange(0, n as int) =~= path@);
    loop
        invariant
            n == path@.len(),
            e <= n,
            final_name(path@) == final_name(path@.subrange(0, e as int)),
        decreases e,
    {
        let ghost q = path@.subrange(0, e as int);
        if e == 0 {
            return None;
        }
        assert(q.drop_last() =~= path@.subrange(0, e - 1));
        let c = path.get_char(e - 1);
        assert(q.last() == c);
        if c == '/' {
            e = e - 1;
        } else if c == '.' && (e == 1 || path.get_char(e - 2) == '/') {
            if e == 1 {
                return None;
            }
            assert(q[q.len() - 2] == path@[e - 2]);
            e = e - 1;
        } else if c == '.' && e >= 2 && path.get_char(e - 2) == '.' && (e == 2 || path.get_char(
            e - 3,
        ) == '/') {
            assert(q[q.len() - 2] == path@[e - 2]);
            if e > 2 {
                assert(q[q.len() - 3] == path@[e - 3]);
            }
            return None;
        } else {
            proof {
                if e >= 2 {
                    assert(q[q.len() - 2] == path@[e - 2]);
                }
                if e >= 3 {
                    assert(q[q.len() - 3] == path@[e - 3]);
                }
            }
            let mut b: usize = e - 1;
            while b > 0 && path.get_char(b - 1) != '/'
                invariant
                    n == path@.len(),
                    b < e <= n,
                    forall|j: int| b <= j < e ==> path@[j] != '/',
                decreases b,
            {
                b = b - 1;
            }
            proof {
                assert forall|j: int| b <= j < q.len() implies q[j] != '/' by {
                    assert(q[j] == path@[j]);
                }
                if b > 0 {
                    assert(q[b - 1] == path@[b - 1]);
                }
                lemma_last_slash_is(q, b - 1);
                assert(q.subrange(b as int, q.len() as int) =~= path@.subrange(b as int, e as int));
            }
            return Some(path.substring_char(b, e).to_string());
        }
    }
}

/// The final component of a path (`Path::file_name`); for a plain path it is
/// computed here by the documented rule.
pub fn path_name(path: &str) -> (name: Option<String>)
    ensures
        opt_view(name) == path_file_name(path@),
        plain_path(path@) ==> opt_view(name) == final_name(path@),
{
    // The standard library's answer ties the result to `path_file_name`; for a
    // plain path the verified computation, which that answer equals, is used.
    let from_std = file_name(path);
    if is_plain(path) {
        final_component(path)
    } else {
        from_std
    }
}

/// The extension of a path.
pub fn extension(path: &str) -> (ext: Option<String>)
    ensures
        opt_view(ext) == path_extension(path@),
{
    match path_name(path) {
        Some(name) => name_extension(name.as_str()),
        None => None,
    }
}

} // verus!
