use vstd::prelude::*;

verus! {

/// Which direction of I/O failed.
#[derive(Debug, Clone, Copy, PartialEq, Eq, Structural)]
pub enum FileIoAction {
    ReadFrom,
    WriteTo,
}

/// What kind of resource the failing path names.
#[derive(Debug, Clone, Copy, PartialEq, Eq, Structural)]
pub enum FileKind {
    File,
    Directory,
}

/// The one structured failure that every boundary operation produces.
#[derive(Debug, Clone)]
pub enum Error {
    FileIo { action: FileIoAction, kind: FileKind, path: String, err: Option<String> },
}

/// The cause text of an optional underlying failure, as characters.
pub open spec fn cause_view(err: Option<String>) -> Option<Seq<char>> {
    match err {
        Some(e) => Some(e@),
        None => None,
    }
}

impl Error {
    /// This error is a file-I/O failure with exactly these fields.
    pub open spec fn is_file_io(
        self,
        action: FileIoAction,
        kind: FileKind,
        path: Seq<char>,
        cause: Option<Seq<char>>,
    ) -> bool {
        match self {
            Error::FileIo { action: a, kind: k, path: p, err } => a == action && k == kind && p@
                == path && cause_view(err) == cause,
        }
    }

    pub open spec fn path_view(self) -> Seq<char> {
        match self {
            Error::FileIo { path, .. } => path@,
        }
    }

    /// A failure with exactly the given fields.
    pub fn new(action: FileIoAction, kind: FileKind, path: String, err: Option<String>) -> (r: Error)
        ensures
            r.is_file_io(action, kind, path@, cause_view(err)),
    {
        Error::FileIo { action, kind, path, err }
    }

    /// A write failure on a file at `path`, caused by `cause`.
    pub fn write_to_file(path: String, cause: String) -> (r: Error)
        ensures
            r.is_file_io(FileIoAction::WriteTo, FileKind::File, path@, Some(cause@)),
    {
        Error::FileIo { action: FileIoAction::WriteTo, kind: FileKind::File, path, err: Some(cause) }
    }

    /// The path that the failure is attributed to.
    pub fn path(&self) -> (r: &String)
        ensures
            r@ == self.path_view(),
    {
        match self {
            Error::FileIo { path, .. } => path,
        }
    }
}

} // verus!
