use vstd::prelude::*;
use vstd::string::*;
use crate::paths::{is_markdown_path, markdown_path, path_extension, path_file_name, path_stem, extension_of, file_name_of, stem_of};

verus! {

/// A fully read note.
#[derive(Clone, Debug)]
pub struct Note {
    pub path: String,
    pub title: String,
    pub content: String,
    pub size: u64,
    pub created_at: Option<String>,
    pub modified_at: Option<String>,
}

/// A summary of a note or directory, as listings and probes give it.
#[derive(Clone, Debug)]
pub struct NoteInfo {
    pub path: String,
    pub title: String,
    pub size: u64,
    pub modified_at: Option<String>,
    pub is_directory: bool,
}

/// The value of a `NoteInfo`, with its texts as character sequences.
pub struct InfoV {
    pub path: Seq<char>,
    pub title: Seq<char>,
    pub size: u64,
    pub modified_at: Option<Seq<char>>,
    pub is_directory: bool,
}

impl View for NoteInfo {
    type V = InfoV;

    open spec fn view(&self) -> InfoV {
        InfoV {
            path: self.path@,
            title: self.title@,
            size: self.size,
            modified_at: opt_view(self.modified_at),
            is_directory: self.is_directory,
        }
    }
}

/// The summary that `NoteInfo::from_path` makes of a path and its metadata.
pub open spec fn info_spec(path: Seq<char>, metadata: FileMeta) -> InfoV {
    InfoV {
        path,
        title: stem_title(path),
        size: metadata.len,
        modified_at: timestamp_text(metadata.modified_secs),
        is_directory: metadata.is_dir,
    }
}

/// A request to create a note; without content a heading is made of the title.
#[derive(Clone, Debug)]
pub struct CreateNoteRequest {
    pub path: String,
    pub title: String,
    pub content: Option<String>,
}

/// What the filesystem reports of an entry: its length, its timestamps in
/// whole seconds since the Unix epoch where the filesystem keeps them, and
/// whether it is a directory.
#[derive(Clone, Copy, Debug, PartialEq, Eq, Structural)]
pub struct FileMeta {
    pub len: u64,
    pub created_secs: Option<u64>,
    pub modified_secs: Option<u64>,
    pub is_dir: bool,
}

/// The decimal digits of `n`, most significant first.
pub open spec fn decimal(n: nat) -> Seq<char>
    decreases n,
{
    let d = seq!['0', '1', '2', '3', '4', '5', '6', '7', '8', '9'][(n % 10) as int];
    if n < 10 {
        seq![d]
    } else {
        decimal(n / 10).push(d)
    }
}

/// A timestamp in seconds, written in decimal.
pub open spec fn timestamp_text(secs: Option<u64>) -> Option<Seq<char>> {
    match secs {
        Some(s) => Some(decimal(s as nat)),
        None => None,
    }
}

/// The view of an optional string.
pub open spec fn opt_view(s: Option<String>) -> Option<Seq<char>> {
    match s {
        Some(t) => Some(t@),
        None => None,
    }
}

/// The title that a path alone gives: its stem, else `Untitled`.
pub open spec fn stem_title(path: Seq<char>) -> Seq<char> {
    match stem_of(path) {
        Some(s) => s,
        None => "Untitled"@,
    }
}

/// Relies on the `Display` of `u64`, which writes the number in decimal.
#[verifier::external_body]
fn u64_decimal(n: u64) -> (r: String)
    ensures
        r@ == decimal(n as nat),
{
    n.to_string()
}

/// A timestamp in seconds as decimal text.
pub fn timestamp_string(secs: Option<u64>) -> (r: Option<String>)
    ensures
        opt_view(r) == timestamp_text(secs),
{
    match secs {
        Some(s) => Some(u64_decimal(s)),
        None => None,
    }
}

/// The stem of a path, or `Untitled` where it has none.
pub fn title_from_stem(path: &str) -> (r: String)
    ensures
        r@ == stem_title(path@),
{
    match path_stem(path) {
        Some(s) => s,
        None => "Untitled".to_owned(),
    }
}

impl Note {
    /// A note with the given path, title and content, size zero and no timestamps.
    pub fn new(path: String, title: String, content: String) -> (r: Note)
        ensures
            r.path@ == path@,
            r.title@ == title@,
            r.content@ == content@,
            r.size == 0,
            r.created_at is None,
            r.modified_at is None,
    {
        Note { path, title, content, size: 0, created_at: None, modified_at: None }
    }

    /// The last component of the note's path.
    pub fn file_name(&self) -> (r: Option<String>)
        ensures
            opt_view(r) == file_name_of(self.path@),
    {
        path_file_name(self.path.as_str())
    }

    /// The extension of the note's path.
    pub fn extension(&self) -> (r: Option<String>)
        ensures
            opt_view(r) == extension_of(self.path@),
    {
        path_extension(self.path.as_str())
    }

    /// Whether the note's path has a markdown extension (`md` or
    /// `markdown`, in any ASCII case).
    pub fn is_markdown(&self) -> (r: bool)
        ensures
            r == is_markdown_path(self.path@),
    {
        markdown_path(self.path.as_str())
    }
}

impl NoteInfo {
    /// The summary of the entry at `path` from its metadata: the title is the
    /// path's stem (or `Untitled`), never read from content.
    pub fn from_path(path: String, metadata: FileMeta) -> (r: NoteInfo)
        ensures
            r@ == info_spec(path@, metadata),
    {
        let title = title_from_stem(path.as_str());
        let modified_at = timestamp_string(metadata.modified_secs);
        NoteInfo { path, title, size: metadata.len, modified_at, is_directory: metadata.is_dir }
    }
}

} // verus!
