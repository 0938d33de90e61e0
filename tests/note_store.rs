use note_store::listing::WalkEntry;
use note_store::models::{CreateNoteRequest, FileMeta, Note, NoteInfo, timestamp_string};
use note_store::paths::{hidden_name, markdown_extension, markdown_path, name_extension_exec, name_stem_exec, path_extension, path_stem};
use note_store::service::{FileService, PathKind};
use note_store::{AppError, IoErrorKind};

fn meta(len: u64, modified: Option<u64>) -> FileMeta {
    FileMeta { len, created_secs: None, modified_secs: modified, is_dir: false }
}

fn entry(path: &str, depth: usize, is_file: bool) -> WalkEntry {
    WalkEntry { path: path.to_string(), depth, is_file, metadata: Some(meta(7, Some(100))) }
}

fn titles(v: &[NoteInfo]) -> Vec<String> {
    v.iter().map(|n| n.title.clone()).collect()
}

#[test]
fn io_kinds_map_to_error_kinds() {
    let e = AppError::from_io(IoErrorKind::NotFound, "gone".to_string());
    assert!(matches!(e, AppError::FileNotFound(ref m) if m == "gone"));
    let e = AppError::from_io(IoErrorKind::PermissionDenied, "no".to_string());
    assert!(matches!(e, AppError::PermissionDenied(ref m) if m == "no"));
    let e = AppError::from_io(IoErrorKind::AlreadyExists, "there".to_string());
    assert!(matches!(e, AppError::FileAlreadyExists(ref m) if m == "there"));
    let e = AppError::from_io(IoErrorKind::Other, "disk full".to_string());
    assert!(matches!(e, AppError::Io(ref m) if m == "disk full"));
    assert_eq!(e.message(), "disk full");
}

#[test]
fn extensions_and_stems_of_names() {
    assert_eq!(name_extension_exec("a.md"), Some("md".to_string()));
    assert_eq!(name_extension_exec("a.tar.gz"), Some("gz".to_string()));
    assert_eq!(name_extension_exec(".hidden"), None);
    assert_eq!(name_extension_exec("plain"), None);
    assert_eq!(name_extension_exec("a."), Some("".to_string()));
    assert_eq!(name_stem_exec("a.tar.gz"), "a.tar");
    assert_eq!(name_stem_exec(".hidden"), ".hidden");
    assert_eq!(name_stem_exec("plain"), "plain");
}

#[test]
fn extensions_and_stems_of_paths() {
    assert_eq!(path_extension("notes/daily/today.md"), Some("md".to_string()));
    assert_eq!(path_extension("notes/dir.d/readme"), None);
    assert_eq!(path_extension("/"), None);
    assert_eq!(path_stem("notes/untitled-thing.md"), Some("untitled-thing".to_string()));
    assert_eq!(path_stem("/"), None);
}

#[test]
fn markdown_extension_ignores_ascii_case() {
    assert!(markdown_extension("md"));
    assert!(markdown_extension("MD"));
    assert!(markdown_extension("Markdown"));
    assert!(!markdown_extension("mdx"));
    assert!(!markdown_extension("txt"));
    assert!(!markdown_extension(""));
    assert!(markdown_path("a/b/c.MarkDown"));
    assert!(!markdown_path("a/b/c.txt"));
    assert!(!markdown_path("a/b/md"));
    assert!(!markdown_path("a/.md"));
}

#[test]
fn hidden_names_start_with_a_dot() {
    assert!(hidden_name(".git"));
    assert!(!hidden_name("git"));
    assert!(!hidden_name(""));
}

#[test]
fn note_new_and_path_parts() {
    let n = Note::new("notes/Plan.md".to_string(), "Plan".to_string(), "body".to_string());
    assert_eq!(n.size, 0);
    assert!(n.created_at.is_none() && n.modified_at.is_none());
    assert_eq!(n.file_name(), Some("Plan.md".to_string()));
    assert_eq!(n.extension(), Some("md".to_string()));
    assert!(n.is_markdown());
    let upper = Note::new("notes/Plan.MD".to_string(), String::new(), String::new());
    assert!(upper.is_markdown());
    for (p, md) in [("a.md", true), ("b.markdown", true), ("c.txt", false), ("README", false), (".md", false), ("notes/A.MD", true)] {
        assert_eq!(Note::new(p.to_string(), String::new(), String::new()).is_markdown(), md);
    }
    let long = Note::new("x.markdown".to_string(), String::new(), String::new());
    assert!(long.is_markdown());
    let none = Note::new("/".to_string(), String::new(), String::new());
    assert_eq!(none.file_name(), None);
    assert_eq!(none.extension(), None);
}

#[test]
fn note_info_from_path_uses_stem() {
    let info = NoteInfo::from_path("vault/ideas.md".to_string(), meta(42, Some(1700000000)));
    assert_eq!(info.title, "ideas");
    assert_eq!(info.size, 42);
    assert_eq!(info.modified_at, Some("1700000000".to_string()));
    assert!(!info.is_directory);
    let root = NoteInfo::from_path("/".to_string(), FileMeta { len: 0, created_secs: None, modified_secs: None, is_dir: true });
    assert_eq!(root.title, "Untitled");
    assert!(root.is_directory);
    assert_eq!(root.modified_at, None);
}

#[test]
fn timestamps_are_decimal() {
    assert_eq!(timestamp_string(Some(0)), Some("0".to_string()));
    assert_eq!(timestamp_string(Some(18446744073709551615)), Some("18446744073709551615".to_string()));
    assert_eq!(timestamp_string(None), None);
}

#[test]
fn title_from_first_heading() {
    let s = FileService::new();
    assert_eq!(s.extract_title("intro\n# My Title\ntext", "notes/x.md"), "My Title");
    assert_eq!(s.extract_title("   #   Spaced out  \r\n# Second", "x.md"), "Spaced out");
    assert_eq!(s.extract_title("#NoSpace\n## Sub\n# Real", "x.md"), "Real");
}

#[test]
fn title_falls_back_to_stem() {
    let s = FileService::new();
    assert_eq!(s.extract_title("no heading here\nat all", "notes/untitled-thing.md"), "untitled-thing");
    assert_eq!(s.extract_title("", "a/b.c.md"), "b.c");
    assert_eq!(s.extract_title("text", "/"), "Untitled");
}

#[test]
fn first_heading_index() {
    let s = FileService::new();
    let ts = vec!["intro".to_string(), "#x".to_string(), "# y".to_string(), "# z".to_string()];
    assert_eq!(s.first_heading(&ts), Some(2));
    assert_eq!(s.first_heading(&vec!["a".to_string()]), None);
    assert_eq!(s.first_heading(&Vec::new()), None);
}

#[test]
fn read_check_on_kinds() {
    let s = FileService::new();
    let p = "n.md".to_string();
    assert!(s.check_file(&p, PathKind::File).is_ok());
    assert!(matches!(s.check_file(&p, PathKind::Missing), Err(AppError::FileNotFound(ref m)) if m == "n.md"));
    assert!(matches!(s.check_file(&p, PathKind::Directory), Err(AppError::InvalidPath(ref m)) if m == "n.md is not a file"));
    assert!(matches!(s.check_file(&p, PathKind::Other), Err(AppError::InvalidPath(_))));
}

#[test]
fn note_from_file_keeps_content() {
    let s = FileService::new();
    let m = FileMeta { len: 22, created_secs: Some(5), modified_secs: Some(9), is_dir: false };
    let n = s.note_from_file("d/n.md".to_string(), "intro\n# My Title\ntext".to_string(), m);
    assert_eq!(n.content, "intro\n# My Title\ntext");
    assert_eq!(n.title, "My Title");
    assert_eq!(n.size, 22);
    assert_eq!(n.created_at, Some("5".to_string()));
    assert_eq!(n.modified_at, Some("9".to_string()));
}

#[test]
fn write_requires_markdown() {
    let s = FileService::new();
    let r = s.write_note(&"notes/a.txt".to_string());
    assert!(matches!(r, Err(AppError::InvalidPath(ref m)) if m == "File must have .md extension: notes/a.txt"));
}

#[test]
fn write_creates_parent_tree() {
    let s = FileService::new();
    let r = s.write_note(&"deep/nested/tree/n.md".to_string());
    assert_eq!(r.unwrap(), Some("deep/nested/tree".to_string()));
    let r = s.write_note(&"n.MD".to_string());
    assert_eq!(r.unwrap(), Some("".to_string()));
}

#[test]
fn create_on_existing_path_fails() {
    let s = FileService::new();
    for p in ["x", "x.md"] {
        let req = CreateNoteRequest { path: p.to_string(), title: "T".to_string(), content: None };
        assert!(matches!(s.create_note(req, true), Err(AppError::FileAlreadyExists(ref m)) if m == p));
    }
}

#[test]
fn create_appends_md_extension() {
    let s = FileService::new();
    let req = CreateNoteRequest { path: "notes/x".to_string(), title: "T".to_string(), content: None };
    let n = s.create_note(req, false).unwrap();
    assert_eq!(n.path, "notes/x.md");
    assert_eq!(n.title, "T");
    assert_eq!(n.content, "# T\n\n");
    assert_eq!(n.size, 5);
    assert!(n.created_at.is_none() && n.modified_at.is_none());
}

#[test]
fn create_keeps_given_content_and_path() {
    let s = FileService::new();
    let req = CreateNoteRequest { path: "a.Markdown".to_string(), title: "Other".to_string(), content: Some("héllo".to_string()) };
    let n = s.create_note(req, false).unwrap();
    assert_eq!(n.path, "a.Markdown");
    assert_eq!(n.title, "Other");
    assert_eq!(n.content, "héllo");
    assert_eq!(n.size, 6);
}

#[test]
fn delete_on_missing_and_directory() {
    let s = FileService::new();
    let p = "gone.md".to_string();
    assert!(matches!(s.check_file(&p, PathKind::Missing), Err(AppError::FileNotFound(_))));
    assert!(matches!(s.check_file(&p, PathKind::Directory), Err(AppError::InvalidPath(_))));
}

#[test]
fn delete_twice_then_not_found() {
    let s = FileService::new();
    let p = "n.md".to_string();
    assert!(s.check_file(&p, PathKind::File).is_ok());
    assert!(matches!(s.check_file(&p, PathKind::Missing), Err(AppError::FileNotFound(_))));
}

#[test]
fn info_needs_existing_path() {
    let s = FileService::new();
    let p = "x".to_string();
    assert!(matches!(s.check_exists(&p, PathKind::Missing), Err(AppError::FileNotFound(ref m)) if m == "x"));
    assert!(s.check_exists(&p, PathKind::Directory).is_ok());
}

#[test]
fn list_skips_hidden_subtrees() {
    let s = FileService::new();
    let entries = vec![
        entry("v", 0, false),
        entry("v/.hidden", 1, false),
        entry("v/.hidden/note.md", 2, true),
        entry("v/b.md", 1, true),
        entry("v/a.md", 1, true),
    ];
    let r = s.list_notes("v".to_string(), PathKind::Directory, entries).unwrap();
    let paths: Vec<String> = r.iter().map(|n| n.path.clone()).collect();
    assert_eq!(paths, vec!["v/a.md".to_string(), "v/b.md".to_string()]);
    assert_eq!(titles(&r), vec!["a".to_string(), "b".to_string()]);
}

#[test]
fn list_resumes_after_hidden_subtree() {
    let s = FileService::new();
    let entries = vec![
        entry("v", 0, false),
        entry("v/.git", 1, false),
        entry("v/.git/x", 2, false),
        entry("v/.git/x/in.md", 3, true),
        entry("v/sub", 1, false),
        entry("v/sub/c.md", 2, true),
        entry("v/.draft.md", 1, true),
        entry("v/notes.txt", 1, true),
        WalkEntry { path: "v/nometa.md".to_string(), depth: 1, is_file: true, metadata: None },
        entry("v/dir.md", 1, false),
    ];
    let r = s.list_notes("v".to_string(), PathKind::Directory, entries).unwrap();
    assert_eq!(titles(&r), vec!["c".to_string()]);
    assert_eq!(r[0].size, 7);
    assert_eq!(r[0].modified_at, Some("100".to_string()));
}

#[test]
fn list_sort_is_stable_for_equal_titles() {
    let s = FileService::new();
    let entries = vec![
        entry("v/y/same.md", 2, true),
        entry("v/Z.md", 1, true),
        entry("v/x/same.md", 2, true),
        entry("v/é.md", 1, true),
        entry("v/abc.md", 1, true),
        entry("v/ab.md", 1, true),
    ];
    let r = s.list_notes("v".to_string(), PathKind::Directory, entries).unwrap();
    let paths: Vec<String> = r.iter().map(|n| n.path.clone()).collect();
    assert_eq!(
        paths,
        vec!["v/Z.md", "v/ab.md", "v/abc.md", "v/y/same.md", "v/x/same.md", "v/é.md"]
            .into_iter()
            .map(|p| p.to_string())
            .collect::<Vec<String>>()
    );
}

#[test]
fn list_checks_directory() {
    let s = FileService::new();
    let r = s.list_notes("nope".to_string(), PathKind::Missing, Vec::new());
    assert!(matches!(r, Err(AppError::FileNotFound(ref m)) if m == "nope"));
    let r = s.list_notes("f.md".to_string(), PathKind::File, Vec::new());
    assert!(matches!(r, Err(AppError::InvalidPath(ref m)) if m == "f.md is not a directory"));
    let r = s.list_notes("d".to_string(), PathKind::Directory, Vec::new());
    assert!(r.unwrap().is_empty());
}

#[test]
fn file_exists_never_fails() {
    let s = FileService::default();
    assert!(s.file_exists(".".to_string()));
    assert!(!s.file_exists("no/such/place/at/all.md".to_string()));
    assert!(!s.file_exists("bad\0path".to_string()));
    assert!(!s.file_exists(String::new()));
}

#[test]
fn classify_path_from_probes() {
    assert_eq!(FileService::classify_path(false, false, false), PathKind::Missing);
    assert_eq!(FileService::classify_path(false, true, true), PathKind::Missing);
    assert_eq!(FileService::classify_path(true, true, false), PathKind::File);
    assert_eq!(FileService::classify_path(true, false, true), PathKind::Directory);
    assert_eq!(FileService::classify_path(true, false, false), PathKind::Other);
}
