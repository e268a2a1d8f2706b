use vstd::prelude::*;
use vstd::string::*;
use vstd::utf8::*;
use crate::error::{Error, FileIoAction, FileKind};
use crate::wrapped::{WrappedReader, WrappedWriter};
use crate::write::{ByteSink, ByteSource};

verus! {

/// Relies on `String::from_utf8`: it succeeds exactly on valid UTF-8 and keeps the bytes.
#[verifier::external_body]
fn string_from_utf8(bytes: Vec<u8>) -> (r: Option<String>)
    ensures
        r is Some <==> valid_utf8(bytes@),
        r matches Some(s) ==> encode_utf8(s@) == bytes@,
{
    String::from_utf8(bytes).ok()
}

/// Decodes `bytes` as UTF-8 text, or gives `None` on invalid input.
pub fn utf8_text(bytes: Vec<u8>) -> (r: Option<String>)
    ensures
        r is Some <==> valid_utf8(bytes@),
        r matches Some(s) ==> encode_utf8(s@) == bytes@ && s@ == decode_utf8(bytes@),
{
    let r = string_from_utf8(bytes);
    proof {
        if r is Some {
            encode_utf8_decode_utf8(r->Some_0@);
        }
    }
    r
}

/// The cause recorded when a file's bytes are not UTF-8.
pub open spec fn invalid_utf8_cause() -> Seq<char> {
    "stream did not contain valid UTF-8"@
}

/// Turns the bytes read from the file at `path` into its text: invalid UTF-8
/// is a read error on that file, never partial text.
pub fn decode_text(path: &str, bytes: Vec<u8>) -> (r: Result<String, Error>)
    ensures
        r is Ok <==> valid_utf8(bytes@),
        r matches Ok(s) ==> encode_utf8(s@) == bytes@ && s@ == decode_utf8(bytes@),
        r matches Err(x) ==> x.is_file_io(
            FileIoAction::ReadFrom,
            FileKind::File,
            path@,
            Some(invalid_utf8_cause()),
        ),
{
    match utf8_text(bytes) {
        Some(s) => Ok(s),
        None => {
            let cause = String::from_str("stream did not contain valid UTF-8");
            Err(Error::new(FileIoAction::ReadFrom, FileKind::File, String::from_str(path), Some(cause)))
        },
    }
}

/// Reading capabilities of a backend.
pub trait FileSystemReader {
    type Source: ByteSource;

    /// Whether anything exists at `path`; unknown unless the implementation says.
    closed spec fn path_exists(&self, path: Seq<char>) -> bool {
        arbitrary()
    }

    /// The bytes of the regular file at `path`, if there is one; unknown
    /// unless the implementation says.
    closed spec fn file_bytes(&self, path: Seq<char>) -> Option<Seq<u8>> {
        arbitrary()
    }

    /// The source files under `dir`, each once.
    fn gleam_files(&self, dir: &str) -> (r: Vec<String>)
        ensures
            forall|i: int, j: int|
                0 <= i < j < r@.len() ==> #[trigger] r@[i]@ != #[trigger] r@[j]@,
            forall|i: int| 0 <= i < r@.len() ==> self.path_exists(#[trigger] r@[i]@),
    ;

    /// The whole text of the file at `path`.
    fn read(&self, path: &str) -> (r: Result<String, Error>)
        ensures
            r matches Ok(s) ==> self.file_bytes(path@) == Some(encode_utf8(s@)),
            (self.file_bytes(path@) matches Some(b) && !valid_utf8(b)) ==> r is Err,
            r matches Err(x) ==> exists|c: Option<Seq<char>>|
                x.is_file_io(FileIoAction::ReadFrom, FileKind::File, path@, c),
    ;

    /// Opens the file at `path` for streaming reads.
    fn reader(&self, path: &str) -> (r: Result<WrappedReader<Self::Source>, Error>)
        ensures
            r matches Ok(w) ==> w.path_view() == path@,
            r matches Err(x) ==> exists|c: Option<Seq<char>>|
                x.is_file_io(FileIoAction::ReadFrom, FileKind::File, path@, c),
    ;

    /// Whether `path` is a regular file; a missing path is not one.
    fn is_file(&self, path: &str) -> (r: bool)
        ensures
            !self.path_exists(path@) ==> !r,
            r ==> self.file_bytes(path@) is Some,
    ;

    /// Whether `path` is a directory; a missing path is not one.
    fn is_directory(&self, path: &str) -> (r: bool)
        ensures
            !self.path_exists(path@) ==> !r,
    ;
}

/// Writing capability of a backend.
pub trait FileSystemWriter {
    type Sink<'a>: ByteSink where Self: 'a;

    /// Holds of a backend in a consistent state; backends without internal
    /// bookkeeping always are.
    closed spec fn writer_wf(&self) -> bool {
        true
    }

    /// Opens `path` for writing, starting from an empty file.
    fn writer<'a>(&'a mut self, path: &str) -> (r: Result<WrappedWriter<Self::Sink<'a>>, Error>)
        requires
            old(self).writer_wf(),
        ensures
            final(self).writer_wf(),
            r matches Ok(w) ==> w.path_view() == path@ && w.inner_view().contents() == Seq::<
                u8,
            >::empty(),
            r matches Err(x) ==> exists|c: Option<Seq<char>>|
                x.is_file_io(FileIoAction::WriteTo, FileKind::File, path@, c),
    ;
}

/// A backend that both reads and writes.
pub trait FileSystemIO: FileSystemWriter + FileSystemReader {}

/// What unpacking into `path` gives, from the outcome of the unpacking primitive:
/// a failure becomes a write error on that directory that carries the cause.
pub fn unpack_outcome(path: &str, raw: Result<(), String>) -> (r: Result<(), Error>)
    ensures
        raw is Ok <==> r is Ok,
        raw matches Err(e) ==> r matches Err(x) && x.is_file_io(
            FileIoAction::WriteTo,
            FileKind::Directory,
            path@,
            Some(e@),
        ),
{
    match raw {
        Ok(()) => Ok(()),
        Err(e) => Err(Error::new(FileIoAction::WriteTo, FileKind::Directory, String::from_str(path), Some(e))),
    }
}

/// Extracts gzip-compressed tar archives of type `A` into directories.
pub trait TarUnpacker<A> {
    /// The unpacking step itself; a failure is described by its cause.
    fn io_result_unpack(&self, path: &str, archive: A) -> (r: Result<(), String>);

    /// Unpacks `archive` into `path`, turning a failure into a write error on that directory.
    fn unpack(&self, path: &str, archive: A) -> (r: Result<(), Error>)
        ensures
            r matches Err(x) ==> exists|c: Seq<char>|
                x.is_file_io(FileIoAction::WriteTo, FileKind::Directory, path@, Some(c)),
    {
        let raw = self.io_result_unpack(path, archive);
        unpack_outcome(path, raw)
    }
}

} // verus!
