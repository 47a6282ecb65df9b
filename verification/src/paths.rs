//! Unix path names as `std::path::Path` reads them: the file name, its stem
//! and extension, and joining a file name onto a directory.

use vstd::prelude::*;
use crate::text::{chars_of, push_char, string_from_range};

verus! {

/// The index of the last `/` in `s`, or `-1` when there is none.
pub open spec fn last_index_of(s: Seq<char>, c: char) -> int
    decreases s.len(),
{
    if s.len() == 0 {
        -1
    } else if s.last() == c {
        s.len() - 1
    } else {
        last_index_of(s.drop_last(), c)
    }
}

/// The final component of a path (`Path::file_name`): trailing `/` and `/.`
/// are ignored, and there is none for a path that is empty, the root, `.`, or
/// that ends in `..`.
pub open spec fn file_name_spec(s: Seq<char>) -> Option<Seq<char>>
    decreases s.len(),
{
    let k = last_index_of(s, '/');
    let seg = s.subrange(k + 1, s.len() as int);
    if seg.len() == 0 || seg == seq!['.'] {
        if k < 0 {
            None
        } else {
            proof {
                lemma_last_index_bounds(s, '/');
            }
            file_name_spec(s.subrange(0, k))
        }
    } else if seg == seq!['.', '.'] {
        None
    } else {
        Some(seg)
    }
}

/// The stem of a file name (`Path::file_stem`): the part before its last `.`,
/// unless that `.` is the first character or there is none.
pub open spec fn stem_of_name(name: Seq<char>) -> Seq<char> {
    let k = last_index_of(name, '.');
    if k <= 0 {
        name
    } else {
        name.subrange(0, k)
    }
}

/// The extension of a file name (`Path::extension`): the part after its last
/// `.`, when that `.` is not the first character.
pub open spec fn extension_of_name(name: Seq<char>) -> Option<Seq<char>> {
    let k = last_index_of(name, '.');
    if k <= 0 {
        None
    } else {
        Some(name.subrange(k + 1, name.len() as int))
    }
}

/// `Path::file_stem` of a path.
pub open spec fn file_stem_spec(s: Seq<char>) -> Option<Seq<char>> {
    match file_name_spec(s) {
        Some(name) => Some(stem_of_name(name)),
        None => None,
    }
}

/// `Path::extension` of a path.
pub open spec fn extension_spec(s: Seq<char>) -> Option<Seq<char>> {
    match file_name_spec(s) {
        Some(name) => extension_of_name(name),
        None => None,
    }
}

/// `dir.join(name)` for a name: a `/` goes between them unless `dir` is empty
/// or already ends in `/`; a name that starts with `/` replaces `dir`.
pub open spec fn join_spec(dir: Seq<char>, name: Seq<char>) -> Seq<char> {
    if name.len() > 0 && name[0] == '/' {
        name
    } else if dir.len() > 0 && dir.last() != '/' {
        dir + seq!['/'] + name
    } else {
        dir + name
    }
}

pub proof fn lemma_last_index_bounds(s: Seq<char>, c: char)
    ensures
        -1 <= last_index_of(s, c) < s.len(),
        last_index_of(s, c) >= 0 ==> s[last_index_of(s, c)] == c,
        forall|k: int| last_index_of(s, c) < k < s.len() ==> #[trigger] s[k] != c,
    decreases s.len(),
{
    if s.len() > 0 && s.last() != c {
        lemma_last_index_bounds(s.drop_last(), c);
        assert forall|k: int| last_index_of(s, c) < k < s.len() implies #[trigger] s[k] != c by {
            if k < s.len() - 1 {
                assert(s[k] == s.drop_last()[k]);
            }
        }
    }
}

proof fn lemma_last_index_prefix(s: Seq<char>, c: char, e: int)
    requires
        0 <= e <= s.len(),
    ensures
        last_index_of(s.subrange(0, e), c) == last_index_of_below(s, c, e),
    decreases e,
{
    let p = s.subrange(0, e);
    if e > 0 {
        assert(p.drop_last() =~= s.subrange(0, e - 1));
        lemma_last_index_prefix(s, c, e - 1);
    }
}

/// The index of the last `c` among the first `e` characters of `s`, or `-1`.
pub open spec fn last_index_of_below(s: Seq<char>, c: char, e: int) -> int
    decreases e,
{
    if e <= 0 {
        -1
    } else if s[e - 1] == c {
        e - 1
    } else {
        last_index_of_below(s, c, e - 1)
    }
}

/// Returns the index of the last `c` among the first `end` characters of `v`, if any.
pub fn find_last(v: &Vec<char>, c: char, end: usize) -> (k: Option<usize>)
    requires
        end <= v.len(),
    ensures
        match k {
            Some(i) => i as int == last_index_of(v@.subrange(0, end as int), c),
            None => last_index_of(v@.subrange(0, end as int), c) == -1,
        },
{
    proof {
        lemma_last_index_prefix(v@, c, end as int);
    }
    let mut j = end;
    while j > 0
        invariant
            j <= end <= v.len(),
            last_index_of(v@.subrange(0, end as int), c) == last_index_of_below(v@, c, end as int),
            last_index_of_below(v@, c, end as int) == last_index_of_below(v@, c, j as int),
        decreases j,
    {
        if v[j - 1] == c {
            return Some(j - 1);
        }
        j = j - 1;
    }
    None
}

/// The bounds of the final component of the path `v`, as `Path::file_name` finds it.
#[verifier::rlimit(40)]
pub fn file_name_bounds(v: &Vec<char>) -> (r: Option<(usize, usize)>)
    ensures
        match r {
            Some((a, b)) => a <= b <= v.len() && file_name_spec(v@) == Some(
                v@.subrange(a as int, b as int),
            ),
            None => file_name_spec(v@) is None,
        },
{
    let mut end = v.len();
    assert(v@.subrange(0, end as int) =~= v@);
    loop
        invariant
            end <= v.len(),
            file_name_spec(v@) == file_name_spec(v@.subrange(0, end as int)),
        decreases end,
    {
        let ghost p = v@.subrange(0, end as int);
        let found = find_last(v, '/', end);
        proof {
            lemma_last_index_bounds(p, '/');
        }
        let ghost k = last_index_of(p, '/');
        let start: usize = match found {
            Some(i) => i + 1,
            None => 0,
        };
        let len = end - start;
        let ghost seg = p.subrange(k + 1, p.len() as int);
        assert(seg =~= v@.subrange(start as int, end as int));
        if len == 0 || (len == 1 && v[start] == '.') {
            if len == 1 {
                assert(seg =~= seq!['.']);
            }
            match found {
                None => {
                    return None;
                },
                Some(i) => {
                    assert(p.subrange(0, k) =~= v@.subrange(0, i as int));
                    end = i;
                },
            }
        } else if len == 2 && v[start] == '.' && v[start + 1] == '.' {
            assert(seg =~= seq!['.', '.']);
            return None;
        } else {
            assert(seg != seq!['.']) by {
                if len == 1 {
                    assert(seg[0] != '.');
                }
            }
            assert(seg != seq!['.', '.']) by {
                if len == 2 {
                    assert(seg[0] != '.' || seg[1] != '.');
                }
            }
            return Some((start, end));
        }
    }
}

/// The final component of a path (`Path::file_name`).
pub fn file_name(path: &str) -> (r: Option<String>)
    ensures
        match r {
            Some(n) => file_name_spec(path@) == Some(n@),
            None => file_name_spec(path@) is None,
        },
{
    let v = chars_of(path);
    match file_name_bounds(&v) {
        Some((a, b)) => Some(string_from_range(&v, a, b)),
        None => None,
    }
}

/// The index of the `.` that splits a file name into stem and extension, if
/// the name has one after its first character.
fn extension_dot(name: &Vec<char>) -> (k: Option<usize>)
    ensures
        match k {
            Some(i) => 0 < i < name.len() && i as int == last_index_of(name@, '.'),
            None => last_index_of(name@, '.') <= 0,
        },
{
    let found = find_last(name, '.', name.len());
    assert(name@.subrange(0, name.len() as int) =~= name@);
    proof {
        lemma_last_index_bounds(name@, '.');
    }
    match found {
        Some(i) => {
            if i == 0 {
                None
            } else {
                Some(i)
            }
        },
        None => None,
    }
}

/// The stem of the final component of a path (`Path::file_stem`).
pub fn file_stem(path: &str) -> (r: Option<String>)
    ensures
        match r {
            Some(n) => file_stem_spec(path@) == Some(n@),
            None => file_stem_spec(path@) is None,
        },
{
    let v = chars_of(path);
    match file_name_bounds(&v) {
        Some((a, b)) => {
            let name = string_from_range(&v, a, b);
            let chars = chars_of(name.as_str());
            match extension_dot(&chars) {
                Some(i) => Some(string_from_range(&chars, 0, i)),
                None => Some(name),
            }
        },
        None => None,
    }
}

/// The extension of the final component of a path (`Path::extension`).
pub fn extension(path: &str) -> (r: Option<String>)
    ensures
        match r {
            Some(n) => extension_spec(path@) == Some(n@),
            None => extension_spec(path@) is None,
        },
{
    let v = chars_of(path);
    match file_name_bounds(&v) {
        Some((a, b)) => {
            let name = string_from_range(&v, a, b);
            let chars = chars_of(name.as_str());
            match extension_dot(&chars) {
                Some(i) => Some(string_from_range(&chars, i + 1, chars.len())),
                None => None,
            }
        },
        None => None,
    }
}

/// `Path::new(dir).join(name)`, as text.
pub fn join(dir: &str, name: &str) -> (r: String)
    ensures
        r@ == join_spec(dir@, name@),
{
    let d = chars_of(dir);
    let n = chars_of(name);
    if n.len() > 0 && n[0] == '/' {
        return name.to_owned();
    }
    let mut r = dir.to_owned();
    if d.len() > 0 && d[d.len() - 1] != '/' {
        push_char(&mut r, '/');
    }
    r.append(name);
    assert(r@ =~= join_spec(dir@, name@));
    r
}

} // verus!
