use vstd::prelude::*;
use vstd::string::*;

verus! {

/// What `std::path::Path::file_name` gives for a path: its last normal
/// component, or nothing (a root, a path ending in `..`, an empty path).
pub uninterp spec fn file_name_of(path: Seq<char>) -> Option<Seq<char>>;

/// What `std::path::Path::parent` gives for a path: the path without its last
/// component, or nothing for a root or an empty path.
pub uninterp spec fn parent_of(path: Seq<char>) -> Option<Seq<char>>;

/// Relies on `Path::file_name` for the last component of a path. A name taken
/// from a `str` is always valid UTF-8, so `to_str` only converts.
#[verifier::external_body]
pub(crate) fn path_file_name(path: &str) -> (r: Option<String>)
    ensures
        match r {
            Some(n) => file_name_of(path@) == Some(n@),
            None => file_name_of(path@) is None,
        },
{
    std::path::Path::new(path).file_name().and_then(|n| n.to_str()).map(|n| n.to_string())
}

/// Relies on `Path::parent` for the directory that holds a path.
#[verifier::external_body]
pub(crate) fn path_parent(path: &str) -> (r: Option<String>)
    ensures
        match r {
            Some(p) => parent_of(path@) == Some(p@),
            None => parent_of(path@) is None,
        },
{
    std::path::Path::new(path).parent().and_then(|p| p.to_str()).map(|p| p.to_string())
}

/// Index of the last `.` in `s`, or -1 when there is none.
pub open spec fn last_dot(s: Seq<char>) -> int
    decreases s.len(),
{
    if s.len() == 0 {
        -1
    } else if s.last() == '.' {
        s.len() - 1
    } else {
        last_dot(s.drop_last())
    }
}

/// The extension of a file name: what follows its last `.`, unless there is
/// no `.` or the only one starts the name.
pub open spec fn name_extension(name: Seq<char>) -> Option<Seq<char>> {
    let i = last_dot(name);
    if i <= 0 {
        None
    } else {
        Some(name.subrange(i + 1, name.len() as int))
    }
}

/// The stem of a file name: what precedes its last `.`, or the whole name
/// when it has no extension.
pub open spec fn name_stem(name: Seq<char>) -> Seq<char> {
    let i = last_dot(name);
    if i <= 0 {
        name
    } else {
        name.subrange(0, i)
    }
}

/// The extension of a path, as `Path::extension` defines it.
pub open spec fn extension_of(path: Seq<char>) -> Option<Seq<char>> {
    match file_name_of(path) {
        Some(n) => name_extension(n),
        None => None,
    }
}

/// The stem of a path, as `Path::file_stem` defines it.
pub open spec fn stem_of(path: Seq<char>) -> Option<Seq<char>> {
    match file_name_of(path) {
        Some(n) => Some(name_stem(n)),
        None => None,
    }
}

/// `c` equals the lower-case ASCII letter `lower`, ignoring ASCII case.
pub open spec fn char_eq_ignore_case(c: char, lower: char) -> bool {
    c == lower || ('A' <= c && c <= 'Z' && c as u32 + 32 == lower as u32)
}

/// `s` equals the lower-case ASCII word `lower`, ignoring ASCII case.
pub open spec fn eq_ignore_case(s: Seq<char>, lower: Seq<char>) -> bool {
    s.len() == lower.len() && forall|i: int| 0 <= i < s.len() ==> char_eq_ignore_case(#[trigger] s[i], lower[i])
}

/// An extension that marks a markdown file: `md` or `markdown`, in any ASCII case.
pub open spec fn is_markdown_extension(ext: Seq<char>) -> bool {
    eq_ignore_case(ext, seq!['m', 'd']) || eq_ignore_case(ext, seq!['m', 'a', 'r', 'k', 'd', 'o', 'w', 'n'])
}

/// A path whose extension marks a markdown file.
pub open spec fn is_markdown_path(path: Seq<char>) -> bool {
    match extension_of(path) {
        Some(e) => is_markdown_extension(e),
        None => false,
    }
}

/// A file name that marks a hidden entry.
pub open spec fn is_hidden_name(name: Seq<char>) -> bool {
    name.len() > 0 && name[0] == '.'
}

/// Position of the last `.` in `s`, as `last_dot` gives it.
fn find_last_dot(s: &str) -> (r: Option<usize>)
    ensures
        match r {
            Some(i) => last_dot(s@) == i as int && i < s@.len(),
            None => last_dot(s@) == -1,
        },
{
    let n = s.unicode_len();
    let mut i: usize = n;
    assert(s@.subrange(0, i as int) =~= s@);
    while i > 0
        invariant
            i <= n,
            n == s@.len(),
            last_dot(s@) == last_dot(s@.subrange(0, i as int)),
        decreases i,
    {
        assert(s@.subrange(0, i as int).drop_last() =~= s@.subrange(0, i - 1));
        if s.get_char(i - 1) == '.' {
            assert(s@.subrange(0, i as int).last() == '.');
            return Some(i - 1);
        }
        i = i - 1;
    }
    None
}

/// The extension of a file name.
pub fn name_extension_exec(name: &str) -> (r: Option<String>)
    ensures
        match r {
            Some(e) => name_extension(name@) == Some(e@),
            None => name_extension(name@) is None,
        },
{
    proof {
        assert(name@.subrange(0, name@.len() as int) =~= name@);
    }
    match find_last_dot(name) {
        Some(i) => {
            if i == 0 {
                None
            } else {
                let n = name.unicode_len();
                Some(name.substring_char(i + 1, n).to_owned())
            }
        },
        None => None,
    }
}

/// The stem of a file name.
pub fn name_stem_exec(name: &str) -> (r: String)
    ensures
        r@ == name_stem(name@),
{
    proof {
        assert(name@.subrange(0, name@.len() as int) =~= name@);
    }
    match find_last_dot(name) {
        Some(i) => {
            if i == 0 {
                name.to_owned()
            } else {
                name.substring_char(0, i).to_owned()
            }
        },
        None => name.to_owned(),
    }
}

/// The extension of a path.
pub fn path_extension(path: &str) -> (r: Option<String>)
    ensures
        match r {
            Some(e) => extension_of(path@) == Some(e@),
            None => extension_of(path@) is None,
        },
{
    match path_file_name(path) {
        Some(n) => name_extension_exec(n.as_str()),
        None => None,
    }
}

/// The stem of a path.
pub fn path_stem(path: &str) -> (r: Option<String>)
    ensures
        match r {
            Some(s) => stem_of(path@) == Some(s@),
            None => stem_of(path@) is None,
        },
{
    match path_file_name(path) {
        Some(n) => Some(name_stem_exec(n.as_str())),
        None => None,
    }
}

/// Whether `s` equals the lower-case ASCII word `lower`, ignoring ASCII case.
fn str_eq_ignore_case(s: &str, lower: &Vec<char>) -> (r: bool)
    ensures
        r == eq_ignore_case(s@, lower@),
{
    let n = s.unicode_len();
    if n != lower.len() {
        return false;
    }
    let mut i: usize = 0;
    while i < n
        invariant
            i <= n,
            n == s@.len(),
            n == lower@.len(),
            forall|j: int| 0 <= j < i ==> char_eq_ignore_case(#[trigger] s@[j], lower@[j]),
        decreases n - i,
    {
        let c = s.get_char(i);
        let l = lower[i];
        let same = c == l || ('A' <= c && c <= 'Z' && c as u32 + 32 == l as u32);
        if !same {
            return false;
        }
        i = i + 1;
    }
    true
}

/// Whether an extension marks a markdown file.
pub fn markdown_extension(ext: &str) -> (r: bool)
    ensures
        r == is_markdown_extension(ext@),
{
    let md: Vec<char> = vec!['m', 'd'];
    let markdown: Vec<char> = vec!['m', 'a', 'r', 'k', 'd', 'o', 'w', 'n'];
    proof {
        assert(md@ =~= seq!['m', 'd']);
        assert(markdown@ =~= seq!['m', 'a', 'r', 'k', 'd', 'o', 'w', 'n']);
    }
    str_eq_ignore_case(ext, &md) || str_eq_ignore_case(ext, &markdown)
}

/// Whether a path names a markdown file by its extension.
pub fn markdown_path(path: &str) -> (r: bool)
    ensures
        r == is_markdown_path(path@),
{
    match path_extension(path) {
        Some(e) => markdown_extension(e.as_str()),
        None => false,
    }
}

/// Whether a file name marks a hidden entry.
pub fn hidden_name(name: &str) -> (r: bool)
    ensures
        r == is_hidden_name(name@),
{
    name.unicode_len() > 0 && name.get_char(0) == '.'
}

} // verus!
