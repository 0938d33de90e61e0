use vstd::prelude::*;
use vstd::string::*;
use vstd::utf8::encode_utf8;
use crate::errors::AppError;
use crate::models::{CreateNoteRequest, FileMeta, Note, opt_view, stem_title, timestamp_string, timestamp_text, title_from_stem};
use crate::paths::{is_markdown_path, markdown_path, parent_of, path_parent};

verus! {

/// What the filesystem holds at a path.
#[derive(Clone, Copy, Debug, PartialEq, Eq, Structural)]
pub enum PathKind {
    Missing,
    File,
    Directory,
    Other,
}

/// The lines of a text as `str::lines` splits it.
pub uninterp spec fn lines_of(s: Seq<char>) -> Seq<Seq<char>>;

/// A text without its leading and trailing whitespace, as `str::trim` gives it.
pub uninterp spec fn trim_of(s: Seq<char>) -> Seq<char>;

/// Relies on `str::lines` to split a text into lines.
#[verifier::external_body]
fn text_lines(s: &str) -> (r: Vec<String>)
    ensures
        r@.len() == lines_of(s@).len(),
        forall|i: int| 0 <= i < r@.len() ==> #[trigger] r@[i]@ == lines_of(s@)[i],
{
    s.lines().map(|l| l.to_string()).collect()
}

/// Relies on `str::trim` to strip whitespace from both ends of a text.
#[verifier::external_body]
fn trimmed(s: &str) -> (r: String)
    ensures
        r@ == trim_of(s@),
{
    s.trim().to_string()
}

/// Relies on `Path::exists`; what it finds depends on the disk.
#[verifier::external_body]
fn path_exists(path: &str) -> bool {
    std::path::Path::new(path).exists()
}

/// A trimmed line that opens a level-one heading.
pub open spec fn is_heading(t: Seq<char>) -> bool {
    t.len() >= 2 && t[0] == '#' && t[1] == ' '
}

/// The trimmed lines of a text.
pub open spec fn trimmed_lines(content: Seq<char>) -> Seq<Seq<char>> {
    lines_of(content).map_values(|l: Seq<char>| trim_of(l))
}

/// Line `i` of `ts` is the first that opens a heading.
pub open spec fn first_heading_at(ts: Seq<Seq<char>>, i: int) -> bool {
    &&& 0 <= i < ts.len()
    &&& is_heading(ts[i])
    &&& forall|j: int| 0 <= j < i ==> !is_heading(#[trigger] ts[j])
}

/// The title of a note: the text of its first heading, trimmed, else the
/// stem of its path, else `Untitled`.
pub open spec fn title_spec(content: Seq<char>, path: Seq<char>) -> Seq<char> {
    let ts = trimmed_lines(content);
    if exists|i: int| first_heading_at(ts, i) {
        let i = choose|i: int| first_heading_at(ts, i);
        trim_of(ts[i].subrange(2, ts[i].len() as int))
    } else {
        stem_title(path)
    }
}

/// The message of an error about a path that is not a regular file.
pub open spec fn not_a_file(path: Seq<char>) -> Seq<char> {
    path + " is not a file"@
}

/// The message of an error about a path that is not a directory.
pub open spec fn not_a_directory(path: Seq<char>) -> Seq<char> {
    path + " is not a directory"@
}

/// The message of an error about a write to a path without a markdown extension.
pub open spec fn not_markdown(path: Seq<char>) -> Seq<char> {
    "File must have .md extension: "@ + path
}

/// The path that a note is created at: the given one, with `.md` appended
/// where it lacks a markdown extension.
pub open spec fn create_target(path: Seq<char>) -> Seq<char> {
    if is_markdown_path(path) {
        path
    } else {
        path + ".md"@
    }
}

/// The content that a new note gets: the given one, else a heading of the title.
pub open spec fn create_content(title: Seq<char>, content: Option<Seq<char>>) -> Seq<char> {
    match content {
        Some(c) => c,
        None => "# "@ + title + "\n\n"@,
    }
}

/// The outcome of requiring a regular file at a path that holds `kind`.
pub open spec fn file_check(path: Seq<char>, kind: PathKind, r: Result<(), AppError>) -> bool {
    match kind {
        PathKind::Missing => r matches Err(AppError::FileNotFound(m)) && m@ == path,
        PathKind::File => r is Ok,
        _ => r matches Err(AppError::InvalidPath(m)) && m@ == not_a_file(path),
    }
}

/// The outcome of deciding a write to `path`.
pub open spec fn write_outcome(path: Seq<char>, r: Result<Option<String>, AppError>) -> bool {
    if is_markdown_path(path) {
        r matches Ok(p) && opt_view(p) == parent_of(path)
    } else {
        r matches Err(AppError::InvalidPath(m)) && m@ == not_markdown(path)
    }
}

/// The outcome of deciding the creation of the note that `request` asks
/// for, where `exists` tells whether the requested path is taken.
pub open spec fn create_outcome(request: CreateNoteRequest, exists: bool, r: Result<Note, AppError>) -> bool {
    if exists {
        r matches Err(AppError::FileAlreadyExists(m)) && m@ == request.path@
    } else {
        r matches Ok(n) && n.path@ == create_target(request.path@)
            && n.title@ == request.title@
            && n.content@ == create_content(request.title@, opt_view(request.content))
            && n.size == encode_utf8(n.content@).len() as usize as u64
            && n.created_at is None && n.modified_at is None
    }
}

/// The note that reading the regular file at `path` gives, where the read
/// found `content` and `metadata`.
pub open spec fn read_outcome(path: Seq<char>, content: Seq<char>, metadata: FileMeta, n: Note) -> bool {
    &&& n.path@ == path
    &&& n.content@ == content
    &&& n.title@ == title_spec(content, path)
    &&& n.size == metadata.len
    &&& opt_view(n.created_at) == timestamp_text(metadata.created_secs)
    &&& opt_view(n.modified_at) == timestamp_text(metadata.modified_secs)
}

/// The service that holds the rules of the note store. It keeps no state:
/// every decision is made from what the caller observed just before.
pub struct FileService {}

impl FileService {
    /// A new service.
    pub fn new() -> (r: FileService)
        ensures
            r == (FileService {}),
    {
        FileService {}
    }

    /// What a path holds, from three probes of it: whether anything exists
    /// there, whether that is a regular file, and whether it is a directory.
    pub fn classify_path(exists: bool, is_file: bool, is_dir: bool) -> (r: PathKind)
        ensures
            !exists ==> r == PathKind::Missing,
            exists && is_file ==> r == PathKind::File,
            exists && !is_file && is_dir ==> r == PathKind::Directory,
            exists && !is_file && !is_dir ==> r == PathKind::Other,
    {
        if !exists {
            PathKind::Missing
        } else if is_file {
            PathKind::File
        } else if is_dir {
            PathKind::Directory
        } else {
            PathKind::Other
        }
    }

    /// Whether anything exists at `file_path`, as the disk answers now. Never
    /// fails, whatever the input.
    pub fn file_exists(&self, file_path: String) -> (r: bool) {
        path_exists(file_path.as_str())
    }

    /// The index of the first of the trimmed lines `ts` that opens a
    /// heading (`#` then a space), if any does.
    pub fn first_heading(&self, ts: &Vec<String>) -> (r: Option<usize>)
        ensures
            match r {
                Some(i) => first_heading_at(ts@.map_values(|t: String| t@), i as int),
                None => forall|j: int| 0 <= j < ts@.len() ==> !is_heading(#[trigger] ts@[j]@),
            },
    {
        let ghost tv = ts@.map_values(|t: String| t@);
        let mut i: usize = 0;
        while i < ts.len()
            invariant
                i <= ts@.len(),
                tv == ts@.map_values(|t: String| t@),
                forall|j: int| 0 <= j < i ==> !is_heading(#[trigger] ts@[j]@),
            decreases ts.len() - i,
        {
            let t = ts[i].as_str();
            let n = t.unicode_len();
            if n >= 2 && t.get_char(0) == '#' && t.get_char(1) == ' ' {
                assert forall|j: int| 0 <= j < i implies !is_heading(#[trigger] tv[j]) by {
                    assert(tv[j] == ts@[j]@);
                }
                return Some(i);
            }
            i = i + 1;
        }
        None
    }

    /// The title of a note: the first line whose trimmed form starts with
    /// `# `, with that prefix removed and trimmed again; else the stem of
    /// `file_path`; else `Untitled`.
    pub fn extract_title(&self, content: &str, file_path: &str) -> (r: String)
        ensures
            r@ == title_spec(content@, file_path@),
    {
        let lines = text_lines(content);
        let ghost all = lines_of(content@);
        let mut ts: Vec<String> = Vec::new();
        let mut k: usize = 0;
        while k < lines.len()
            invariant
                k <= lines@.len(),
                lines@.len() == all.len(),
                all == lines_of(content@),
                forall|j: int| 0 <= j < lines@.len() ==> #[trigger] lines@[j]@ == all[j],
                ts@.len() == k,
                forall|j: int| 0 <= j < k ==> #[trigger] ts@[j]@ == trim_of(all[j]),
            decreases lines.len() - k,
        {
            let t = trimmed(lines[k].as_str());
            ts.push(t);
            k = k + 1;
        }
        let ghost tv = ts@.map_values(|t: String| t@);
        assert(tv =~= trimmed_lines(content@));
        match self.first_heading(&ts) {
            Some(i) => {
                let t = ts[i].as_str();
                let n = t.unicode_len();
                proof {
                    assert(first_heading_at(tv, i as int));
                    let c = choose|c: int| first_heading_at(tv, c);
                    assert(c == i as int) by {
                        if c < i {
                            assert(!is_heading(tv[c]));
                        } else if c > i {
                            assert(!is_heading(tv[i as int]));
                        }
                    }
                }
                trimmed(t.substring_char(2, n))
            },
            None => {
                assert forall|c: int| !first_heading_at(tv, c) by {
                    if 0 <= c < tv.len() {
                        assert(tv[c] == ts@[c]@);
                    }
                }
                title_from_stem(file_path)
            },
        }
    }

    /// Whether `file_path` has a markdown extension (`md` or `markdown`, any ASCII case).
    pub fn is_markdown_file(&self, file_path: &str) -> (r: bool)
        ensures
            r == is_markdown_path(file_path@),
    {
        markdown_path(file_path)
    }

    /// Whether a walked path has a markdown extension.
    pub fn is_markdown_file_path(&self, path: &String) -> (r: bool)
        ensures
            r == is_markdown_path(path@),
    {
        markdown_path(path.as_str())
    }

    /// Requires a regular file at `file_path`, which holds `kind`: nothing
    /// there is `FileNotFound`, anything but a file is `InvalidPath`.
    pub fn check_file(&self, file_path: &String, kind: PathKind) -> (r: Result<(), AppError>)
        ensures
            file_check(file_path@, kind, r),
    {
        match kind {
            PathKind::Missing => Err(AppError::FileNotFound(file_path.clone())),
            PathKind::File => Ok(()),
            _ => {
                let mut m = file_path.clone();
                m.append(" is not a file");
                Err(AppError::InvalidPath(m))
            },
        }
    }

    /// Requires something at `file_path`, which holds `kind`.
    pub fn check_exists(&self, file_path: &String, kind: PathKind) -> (r: Result<(), AppError>)
        ensures
            kind == PathKind::Missing ==> (r matches Err(AppError::FileNotFound(m)) && m@ == file_path@),
            kind != PathKind::Missing ==> r is Ok,
    {
        match kind {
            PathKind::Missing => Err(AppError::FileNotFound(file_path.clone())),
            _ => Ok(()),
        }
    }

    /// Requires a directory at `directory_path`, which holds `kind`.
    pub fn check_directory(&self, directory_path: &String, kind: PathKind) -> (r: Result<(), AppError>)
        ensures
            kind == PathKind::Missing ==> (r matches Err(AppError::FileNotFound(m)) && m@ == directory_path@),
            kind == PathKind::Directory ==> r is Ok,
            kind != PathKind::Missing && kind != PathKind::Directory ==> (r matches Err(AppError::InvalidPath(m))
                && m@ == not_a_directory(directory_path@)),
    {
        match kind {
            PathKind::Missing => Err(AppError::FileNotFound(directory_path.clone())),
            PathKind::Directory => Ok(()),
            _ => {
                let mut m = directory_path.clone();
                m.append(" is not a directory");
                Err(AppError::InvalidPath(m))
            },
        }
    }

    /// The note read from the regular file at `file_path`: its full content,
    /// the title derived from it, and size and timestamps from its metadata.
    pub fn note_from_file(&self, file_path: String, content: String, metadata: FileMeta) -> (r: Note)
        ensures
            read_outcome(file_path@, content@, metadata, r),
    {
        let title = self.extract_title(content.as_str(), file_path.as_str());
        let created_at = timestamp_string(metadata.created_secs);
        let modified_at = timestamp_string(metadata.modified_secs);
        Note { path: file_path, title, content, size: metadata.len, created_at, modified_at }
    }

    /// Decides a write of a note to `file_path`: a path without a markdown
    /// extension is `InvalidPath`; otherwise the write goes ahead after the
    /// directory returned, when there is one, has been created with all its
    /// missing ancestors.
    pub fn write_note(&self, file_path: &String) -> (r: Result<Option<String>, AppError>)
        ensures
            write_outcome(file_path@, r),
    {
        if !self.is_markdown_file(file_path.as_str()) {
            let mut m = "File must have .md extension: ".to_owned();
            m.append(file_path.as_str());
            return Err(AppError::InvalidPath(m));
        }
        Ok(path_parent(file_path.as_str()))
    }

    /// Decides the creation of a note, given whether anything exists at the
    /// requested path as given: if so, `FileAlreadyExists`. Otherwise the
    /// note to write: at the requested path (with `.md` appended where it
    /// lacks a markdown extension), with the given content or a heading of
    /// the title, the requested title, the content's length in bytes as size
    /// and no timestamps.
    pub fn create_note(&self, request: CreateNoteRequest, exists: bool) -> (r: Result<Note, AppError>)
        ensures
            create_outcome(request, exists, r),
    {
        if exists {
            return Err(AppError::FileAlreadyExists(request.path));
        }
        let path = if !self.is_markdown_file(request.path.as_str()) {
            let mut p = request.path.clone();
            p.append(".md");
            p
        } else {
            request.path.clone()
        };
        let content = match request.content {
            Some(c) => c,
            None => {
                let mut c = "# ".to_owned();
                c.append(request.title.as_str());
                c.append("\n\n");
                c
            },
        };
        let size = content.as_str().len() as u64;
        Ok(Note { path, title: request.title, content, size, created_at: None, modified_at: None })
    }
}

impl Default for FileService {
    fn default() -> (r: FileService)
        ensures
            r == (FileService {}),
    {
        FileService::new()
    }
}

} // verus!
