use vstd::prelude::*;
use vstd::string::*;
use crate::errors::AppError;
use crate::models::{FileMeta, InfoV, NoteInfo, info_spec};
use crate::paths::{file_name_of, hidden_name, is_hidden_name, is_markdown_path, markdown_path, path_file_name};
use crate::service::{FileService, PathKind, not_a_directory};

verus! {

/// One entry of a directory walk, in the order the walk met it: its path,
/// its depth below the walked directory (the directory itself is depth 0),
/// whether it is a regular file, and its metadata where it could be read.
#[derive(Clone, Debug)]
pub struct WalkEntry {
    pub path: String,
    pub depth: usize,
    pub is_file: bool,
    pub metadata: Option<FileMeta>,
}

/// An entry below the walked directory whose name starts with `.`.
pub open spec fn entry_hidden(e: WalkEntry) -> bool {
    e.depth >= 1 && match file_name_of(e.path@) {
        Some(n) => is_hidden_name(n),
        None => false,
    }
}

/// An entry that lies inside the hidden directory at depth `skip`, if any.
pub open spec fn inside_skipped(skip: Option<usize>, e: WalkEntry) -> bool {
    match skip {
        Some(d) => e.depth > d,
        None => false,
    }
}

/// The depth of the hidden directory whose subtree the walk is inside after
/// the entries `es`, if any. A walk lists a directory's subtree right after it.
pub open spec fn walk_skip(es: Seq<WalkEntry>) -> Option<usize>
    decreases es.len(),
{
    if es.len() == 0 {
        None
    } else {
        let prev = walk_skip(es.drop_last());
        let e = es.last();
        if inside_skipped(prev, e) {
            prev
        } else if entry_hidden(e) {
            Some(e.depth)
        } else {
            None
        }
    }
}

/// Whether the last of `es` makes a note of the listing: not hidden, not
/// inside a hidden directory, a regular markdown file with readable metadata.
pub open spec fn entry_listed(es: Seq<WalkEntry>) -> bool {
    let e = es.last();
    !inside_skipped(walk_skip(es.drop_last()), e) && !entry_hidden(e) && e.is_file
        && is_markdown_path(e.path@) && e.metadata is Some
}

/// The summaries of the notes among `es`, in walk order.
pub open spec fn listed(es: Seq<WalkEntry>) -> Seq<InfoV>
    decreases es.len(),
{
    if es.len() == 0 {
        Seq::empty()
    } else if entry_listed(es) {
        listed(es.drop_last()).push(info_spec(es.last().path@, es.last().metadata.unwrap()))
    } else {
        listed(es.drop_last())
    }
}

/// `a` comes before `b` in lexicographic order of code points, which is the
/// byte order of their UTF-8 encodings.
pub open spec fn title_lt(a: Seq<char>, b: Seq<char>) -> bool
    decreases a.len(),
{
    if a.len() == 0 {
        b.len() > 0
    } else if b.len() == 0 {
        false
    } else if a[0] != b[0] {
        (a[0] as int) < (b[0] as int)
    } else {
        title_lt(a.drop_first(), b.drop_first())
    }
}

/// No item of `s` has a title that comes before that of an earlier item.
pub open spec fn sorted_by_title(s: Seq<InfoV>) -> bool {
    forall|i: int, j: int| 0 <= i < j < s.len() ==> !title_lt(#[trigger] s[j].title, #[trigger] s[i].title)
}

/// `title_lt` is transitive.
proof fn lemma_title_lt_trans(a: Seq<char>, b: Seq<char>, c: Seq<char>)
    requires
        title_lt(a, b),
        title_lt(b, c),
    ensures
        title_lt(a, c),
    decreases a.len(),
{
    if a.len() > 0 && b.len() > 0 && c.len() > 0 && a[0] == b[0] && b[0] == c[0] {
        lemma_title_lt_trans(a.drop_first(), b.drop_first(), c.drop_first());
    }
}

/// Of two different titles, one comes before the other.
proof fn lemma_title_lt_total(a: Seq<char>, b: Seq<char>)
    ensures
        title_lt(a, b) || title_lt(b, a) || a == b,
    decreases a.len(),
{
    if a.len() > 0 && b.len() > 0 {
        if a[0] == b[0] {
            lemma_title_lt_total(a.drop_first(), b.drop_first());
            if a.drop_first() == b.drop_first() {
                assert(a =~= seq![a[0]] + a.drop_first());
                assert(b =~= seq![b[0]] + b.drop_first());
            }
        } else {
            assert((a[0] as int) != (b[0] as int));
        }
    } else if a.len() == 0 && b.len() == 0 {
        assert(a =~= b);
    }
}

/// No title comes before itself, and of two titles at most one comes first.
proof fn lemma_title_lt_asym(a: Seq<char>, b: Seq<char>)
    ensures
        title_lt(a, b) ==> !title_lt(b, a),
    decreases a.len(),
{
    if a.len() > 0 && b.len() > 0 && a[0] == b[0] {
        lemma_title_lt_asym(a.drop_first(), b.drop_first());
    }
}

/// "Does not come before" is transitive.
proof fn lemma_title_le_trans(a: Seq<char>, b: Seq<char>, c: Seq<char>)
    requires
        !title_lt(b, a),
        !title_lt(c, b),
    ensures
        !title_lt(c, a),
{
    lemma_title_lt_total(a, b);
    if title_lt(c, a) && title_lt(a, b) {
        lemma_title_lt_trans(c, a, b);
    }
}

/// `x` put into `s` after every item whose title does not come after its own.
pub open spec fn insert_by_title(s: Seq<InfoV>, x: InfoV) -> Seq<InfoV>
    decreases s.len(),
{
    if s.len() == 0 || !title_lt(x.title, s.last().title) {
        s.push(x)
    } else {
        insert_by_title(s.drop_last(), x).push(s.last())
    }
}

/// `s` sorted by title; items with equal titles keep their order.
pub open spec fn sort_by_title(s: Seq<InfoV>) -> Seq<InfoV>
    decreases s.len(),
{
    if s.len() == 0 {
        s
    } else {
        insert_by_title(sort_by_title(s.drop_last()), s.last())
    }
}

/// The views of a sequence of summaries.
pub open spec fn infos_view(s: Seq<NoteInfo>) -> Seq<InfoV> {
    s.map_values(|n: NoteInfo| n@)
}

/// Inserting at the position the backward scan stops at is `insert_by_title`.
proof fn lemma_insert_at(s: Seq<InfoV>, x: InfoV, j: int)
    requires
        0 <= j <= s.len(),
        forall|k: int| j <= k < s.len() ==> title_lt(x.title, #[trigger] s[k].title),
        j == 0 || !title_lt(x.title, s[j - 1].title),
    ensures
        insert_by_title(s, x) == s.insert(j, x),
    decreases s.len(),
{
    if j == s.len() {
        assert(s.insert(j, x) =~= s.push(x));
    } else {
        assert(title_lt(x.title, s[s.len() - 1].title));
        let t = s.drop_last();
        assert forall|k: int| j <= k < t.len() implies title_lt(x.title, #[trigger] t[k].title) by {
            assert(t[k] == s[k]);
        }
        lemma_insert_at(t, x, j);
        assert(t.insert(j, x).push(s.last()) =~= s.insert(j, x));
    }
}

/// Whether `a` comes before `b`, as `title_lt` says.
fn title_less(a: &str, b: &str) -> (r: bool)
    ensures
        r == title_lt(a@, b@),
{
    let n = a.unicode_len();
    let m = b.unicode_len();
    let mut i: usize = 0;
    assert(a@.skip(0) =~= a@);
    assert(b@.skip(0) =~= b@);
    while i < n && i < m
        invariant
            i <= n,
            i <= m,
            n == a@.len(),
            m == b@.len(),
            title_lt(a@, b@) == title_lt(a@.skip(i as int), b@.skip(i as int)),
        decreases n - i,
    {
        let c = a.get_char(i);
        let d = b.get_char(i);
        assert(a@.skip(i as int)[0] == c);
        assert(b@.skip(i as int)[0] == d);
        if c != d {
            return (c as u32) < (d as u32);
        }
        assert(a@.skip(i as int).drop_first() =~= a@.skip(i + 1));
        assert(b@.skip(i as int).drop_first() =~= b@.skip(i + 1));
        i = i + 1;
    }
    i < m
}

/// Puts `info` into `out`, which is sorted by title, after every summary
/// whose title does not come after its own.
fn insert_sorted(out: &mut Vec<NoteInfo>, info: NoteInfo)
    ensures
        infos_view(final(out)@) == insert_by_title(infos_view(old(out)@), info@),
        sorted_by_title(infos_view(old(out)@)) ==> sorted_by_title(infos_view(final(out)@)),
{
    let ghost s = infos_view(out@);
    let mut j: usize = out.len();
    while j > 0 && title_less(info.title.as_str(), out[j - 1].title.as_str())
        invariant
            j <= out@.len(),
            s == infos_view(out@),
            forall|k: int| j <= k < s.len() ==> title_lt(info@.title, #[trigger] s[k].title),
        decreases j,
    {
        j = j - 1;
    }
    proof {
        lemma_insert_at(s, info@, j as int);
    }
    out.insert(j, info);
    proof {
        let t = s.insert(j as int, info@);
        assert(infos_view(out@) =~= t);
        if sorted_by_title(s) {
            assert forall|a: int, b: int| 0 <= a < b < t.len() implies !title_lt(#[trigger] t[b].title, #[trigger] t[a].title) by {
                if b < j {
                    assert(t[a] == s[a] && t[b] == s[b]);
                } else if b == j {
                    assert(t[a] == s[a]);
                    if a < j - 1 {
                        lemma_title_le_trans(s[a].title, s[j - 1].title, info@.title);
                    }
                } else if a == j {
                    assert(t[b] == s[b - 1]);
                    lemma_title_lt_asym(info@.title, s[b - 1].title);
                } else if a > j {
                    assert(t[a] == s[a - 1] && t[b] == s[b - 1]);
                } else {
                    assert(t[a] == s[a] && t[b] == s[b - 1]);
                    lemma_title_lt_asym(info@.title, s[b - 1].title);
                    if a < b - 1 {
                        lemma_title_lt_total(s[a].title, info@.title);
                    }
                }
            }
        }
    }
}

impl FileService {
    /// The notes of a directory walk, from the directory at `directory_path`
    /// (which holds `kind`) and the entries the walk met, in walk order.
    /// Nothing there is `FileNotFound`, anything but a directory is
    /// `InvalidPath`. Otherwise: one summary per regular markdown file whose
    /// metadata could be read, leaving out every entry whose name starts
    /// with `.` together with everything beneath it, sorted by title with
    /// equal titles in walk order.
    pub fn list_notes(&self, directory_path: String, kind: PathKind, entries: Vec<WalkEntry>) -> (r: Result<Vec<NoteInfo>, AppError>)
        ensures
            kind == PathKind::Missing ==> (r matches Err(AppError::FileNotFound(m)) && m@ == directory_path@),
            kind != PathKind::Missing && kind != PathKind::Directory ==> (r matches Err(AppError::InvalidPath(m))
                && m@ == not_a_directory(directory_path@)),
            kind == PathKind::Directory ==> (r matches Ok(v) && infos_view(v@) == sort_by_title(listed(entries@))),
            r matches Ok(v) ==> sorted_by_title(infos_view(v@)),
    {
        match self.check_directory(&directory_path, kind) {
            Err(e) => { return Err(e); },
            Ok(()) => {},
        }
        let mut out: Vec<NoteInfo> = Vec::new();
        let mut skip: Option<usize> = None;
        let mut i: usize = 0;
        assert(entries@.take(0) =~= Seq::<WalkEntry>::empty());
        assert(infos_view(out@) =~= Seq::<InfoV>::empty());
        while i < entries.len()
            invariant
                i <= entries@.len(),
                skip == walk_skip(entries@.take(i as int)),
                infos_view(out@) == sort_by_title(listed(entries@.take(i as int))),
                sorted_by_title(infos_view(out@)),
            decreases entries.len() - i,
        {
            let e = &entries[i];
            let ghost es = entries@.take(i + 1);
            assert(es.drop_last() =~= entries@.take(i as int));
            assert(es.last() == *e);
            let inside = match skip {
                Some(d) => e.depth > d,
                None => false,
            };
            if inside {
                assert(!entry_listed(es));
            } else {
                let hidden = e.depth >= 1 && match path_file_name(e.path.as_str()) {
                    Some(n) => hidden_name(n.as_str()),
                    None => false,
                };
                if hidden {
                    skip = Some(e.depth);
                } else {
                    skip = None;
                    if e.is_file && markdown_path(e.path.as_str()) {
                        match e.metadata {
                            Some(m) => {
                                let info = NoteInfo::from_path(e.path.clone(), m);
                                let ghost prev = listed(es.drop_last());
                                assert(listed(es) == prev.push(info@));
                                assert(prev.push(info@).drop_last() =~= prev);
                                assert(sort_by_title(listed(es)) == insert_by_title(sort_by_title(prev), info@));
                                insert_sorted(&mut out, info);
                            },
                            None => {},
                        }
                    }
                }
            }
            proof {
                if !entry_listed(es) {
                    assert(listed(es) == listed(es.drop_last()));
                }
            }
            i = i + 1;
        }
        assert(entries@.take(entries@.len() as int) =~= entries@);
        Ok(out)
    }
}

} // verus!
