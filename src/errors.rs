use vstd::prelude::*;

verus! {

/// The kind of an operating-system I/O failure, as far as the store tells
/// kinds apart.
#[derive(Clone, Copy, Debug, PartialEq, Eq, Structural)]
pub enum IoErrorKind {
    NotFound,
    PermissionDenied,
    AlreadyExists,
    Other,
}

/// The closed set of failures of the store; each carries a message.
#[derive(Clone, Debug)]
pub enum AppError {
    FileNotFound(String),
    Io(String),
    InvalidPath(String),
    PermissionDenied(String),
    FileAlreadyExists(String),
    InvalidMarkdown(String),
    Unknown(String),
}


impl AppError {
    /// The message carried by the error, whatever its kind.
    pub open spec fn message_spec(&self) -> Seq<char> {
        match self {
            AppError::FileNotFound(m) => m@,
            AppError::Io(m) => m@,
            AppError::InvalidPath(m) => m@,
            AppError::PermissionDenied(m) => m@,
            AppError::FileAlreadyExists(m) => m@,
            AppError::InvalidMarkdown(m) => m@,
            AppError::Unknown(m) => m@,
        }
    }

    /// Classifies an I/O failure: not-found, permission and already-exists
    /// keep their kind, anything else is `Io`. The message is kept.
    pub fn from_io(kind: IoErrorKind, message: String) -> (r: AppError)
        ensures
            r.message_spec() == message@,
            kind == IoErrorKind::NotFound <==> r is FileNotFound,
            kind == IoErrorKind::PermissionDenied <==> r is PermissionDenied,
            kind == IoErrorKind::AlreadyExists <==> r is FileAlreadyExists,
            kind == IoErrorKind::Other <==> r is Io,
    {
        match kind {
            IoErrorKind::NotFound => AppError::FileNotFound(message),
            IoErrorKind::PermissionDenied => AppError::PermissionDenied(message),
            IoErrorKind::AlreadyExists => AppError::FileAlreadyExists(message),
            IoErrorKind::Other => AppError::Io(message),
        }
    }

    /// The message carried by the error.
    pub fn message(&self) -> (r: String)
        ensures
            r@ == self.message_spec(),
    {
        match self {
            AppError::FileNotFound(m) => m.clone(),
            AppError::Io(m) => m.clone(),
            AppError::InvalidPath(m) => m.clone(),
            AppError::PermissionDenied(m) => m.clone(),
            AppError::FileAlreadyExists(m) => m.clone(),
            AppError::InvalidMarkdown(m) => m.clone(),
            AppError::Unknown(m) => m.clone(),
        }
    }
}

} // verus!
