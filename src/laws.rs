use vstd::prelude::*;
use crate::errors::AppError;
use crate::models::{CreateNoteRequest, FileMeta, Note};
use crate::paths::is_markdown_path;
use crate::service::{PathKind, create_outcome, file_check, read_outcome, write_outcome};

verus! {

/// A write of `content` to a markdown path is allowed, and the note read
/// back from the regular file it leaves holds exactly the content read.
pub proof fn write_read_round_trip(path: Seq<char>, content: Seq<char>, metadata: FileMeta)
    requires
        is_markdown_path(path),
    ensures
        forall|w: Result<Option<String>, AppError>| write_outcome(path, w) ==> w is Ok,
        forall|c: Result<(), AppError>| file_check(path, PathKind::File, c) ==> c is Ok,
        forall|n: Note| read_outcome(path, content, metadata, n) ==> n.content@ == content,
{
}

/// Creating a note at a path that is taken fails with `FileAlreadyExists`,
/// whether or not the path has a markdown extension.
pub proof fn create_on_existing_fails(request: CreateNoteRequest)
    ensures
        forall|r: Result<Note, AppError>| create_outcome(request, true, r)
            ==> (r matches Err(AppError::FileAlreadyExists(m)) && m@ == request.path@),
{
}

/// Creating a note at a free path without a markdown extension makes it at
/// that path with `.md` appended, never at the path itself.
pub proof fn create_appends_md(request: CreateNoteRequest)
    requires
        !is_markdown_path(request.path@),
    ensures
        forall|r: Result<Note, AppError>| create_outcome(request, false, r)
            ==> (r matches Ok(n) && n.path@ == request.path@ + ".md"@ && n.path@ != request.path@),
{
    assert forall|r: Result<Note, AppError>| create_outcome(request, false, r)
        implies (r matches Ok(n) && n.path@ == request.path@ + ".md"@ && n.path@ != request.path@) by {
        if let Ok(n) = r {
            reveal_strlit(".md");
            assert(n.path@.len() == request.path@.len() + 3);
        }
    }
}

/// Deleting fails with `FileNotFound` where nothing exists and with
/// `InvalidPath` on a directory; it goes ahead only on a regular file.
pub proof fn delete_needs_a_file(path: Seq<char>)
    ensures
        forall|r: Result<(), AppError>| file_check(path, PathKind::Missing, r)
            ==> (r matches Err(AppError::FileNotFound(m)) && m@ == path),
        forall|r: Result<(), AppError>| file_check(path, PathKind::Directory, r) ==> r matches Err(AppError::InvalidPath(_)),
        forall|k: PathKind, r: Result<(), AppError>| file_check(path, k, r) && r is Ok ==> k == PathKind::File,
{
}

/// Deleting twice in a row: the first delete goes ahead only on a regular
/// file, which it removes; the second then finds nothing and fails with
/// `FileNotFound`, never succeeding silently.
pub proof fn delete_twice(path: Seq<char>, kind: PathKind)
    ensures
        forall|first: Result<(), AppError>, second: Result<(), AppError>|
            file_check(path, kind, first) && first is Ok && file_check(path, PathKind::Missing, second)
                ==> kind == PathKind::File && (second matches Err(AppError::FileNotFound(m)) && m@ == path),
{
}

} // verus!
