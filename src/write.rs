use vstd::prelude::*;
use vstd::string::*;
use vstd::utf8::*;
use crate::error::{Error, FileIoAction, FileKind};

verus! {

/// Encoding a concatenation of characters concatenates their encodings.
pub proof fn lemma_encode_utf8_concat(a: Seq<char>, b: Seq<char>)
    ensures
        encode_utf8(a + b) == encode_utf8(a) + encode_utf8(b),
    decreases a.len(),
{
    if a.len() == 0 {
        assert(a + b =~= b);
    } else {
        assert((a + b).drop_first() =~= a.drop_first() + b);
        lemma_encode_utf8_concat(a.drop_first(), b);
    }
}

/// A run of writes that each append their bytes leaves the resource holding
/// its starting contents followed by every submitted byte sequence, in call
/// order: `states[i]` is the contents before call `i`, `parts[i]` the bytes it
/// submitted (the UTF-8 encoding, for text).
pub proof fn lemma_writes_concatenate(states: Seq<Seq<u8>>, parts: Seq<Seq<u8>>)
    requires
        states.len() == parts.len() + 1,
        forall|i: int| 0 <= i < parts.len() ==> #[trigger] states[i + 1] == states[i] + parts[i],
    ensures
        states.last() == states[0] + parts.flatten(),
    decreases parts.len(),
{
    if parts.len() == 0 {
        assert(parts.flatten() =~= Seq::<u8>::empty());
        assert(states[0] + Seq::<u8>::empty() =~= states[0]);
    } else {
        let earlier_states = states.drop_last();
        let earlier_parts = parts.drop_last();
        assert forall|i: int| 0 <= i < earlier_parts.len() implies #[trigger] earlier_states[i + 1]
            == earlier_states[i] + earlier_parts[i] by {
            assert(states[i + 1] == states[i] + parts[i]);
        }
        lemma_writes_concatenate(earlier_states, earlier_parts);
        earlier_parts.lemma_flatten_push(parts.last());
        assert(parts =~= earlier_parts.push(parts.last()));
        assert(states[parts.len() as int] == states[parts.len() - 1] + parts[parts.len() - 1]);
        assert(states[0] + (earlier_parts.flatten() + parts.last()) =~= (states[0]
            + earlier_parts.flatten()) + parts.last());
    }
}

/// An exclusively owned byte-writable resource, such as an open file.
pub trait ByteSink: Sized {
    /// Every byte that has reached the resource so far; unknown unless the
    /// implementation says.
    closed spec fn contents(&self) -> Seq<u8> {
        arbitrary()
    }

    /// Appends all of `bytes`; on failure returns a description of the cause.
    /// Whether this resource accepts every write; unknown unless the
    /// implementation says.
    closed spec fn infallible(&self) -> bool {
        false
    }

    /// Which resource the sink is attached to; writing never changes it.
    closed spec fn sink_id(&self) -> nat {
        arbitrary()
    }

    fn write_all(&mut self, bytes: &[u8]) -> (r: Result<(), String>)
        ensures
            final(self).infallible() == old(self).infallible(),
            final(self).sink_id() == old(self).sink_id(),
            old(self).infallible() ==> r is Ok,
            r is Ok ==> final(self).contents() == old(self).contents() + bytes@,
    ;

    /// Pushes buffered bytes out; what was written stays written.
    fn flush(&mut self) -> (r: Result<(), String>)
        ensures
            final(self).infallible() == old(self).infallible(),
            final(self).sink_id() == old(self).sink_id(),
            old(self).infallible() ==> r is Ok,
            final(self).contents() == old(self).contents(),
    ;
}

/// An exclusively owned byte-readable resource, such as a file opened for reading.
pub trait ByteSource: Sized {
    /// The bytes that later reads will hand out, in order; unknown unless the
    /// implementation says.
    closed spec fn remaining(&self) -> Seq<u8> {
        arbitrary()
    }

    /// Reads up to `buffer.len()` bytes into the front of `buffer` and returns
    /// how many; zero means the end of the stream (or an empty buffer).
    fn read(&mut self, buffer: &mut [u8]) -> (r: Result<usize, String>)
        ensures
            final(buffer)@.len() == old(buffer)@.len(),
            r is Ok ==> {
                let n = r->Ok_0 as int;
                &&& n <= old(buffer)@.len()
                &&& n <= old(self).remaining().len()
                &&& final(buffer)@.subrange(0, n) == old(self).remaining().subrange(0, n)
                &&& final(self).remaining() == old(self).remaining().subrange(
                    n,
                    old(self).remaining().len() as int,
                )
                &&& (n == 0 ==> old(buffer)@.len() == 0 || old(self).remaining().len() == 0)
            },
    ;
}

/// A resource that accepts UTF-8 text and reports failures as [`Error`]s
/// attributed to a fixed path.
pub trait Utf8Writer: Sized {
    /// The path that failures of this writer carry.
    spec fn error_path(&self) -> Seq<char>;

    /// Every byte written so far.
    spec fn written(&self) -> Seq<u8>;

    /// Whether every write to this writer succeeds.
    spec fn never_fails(&self) -> bool;

    /// Which resource the writer is attached to; writing never changes it.
    spec fn writer_id(&self) -> nat;

    /// Appends the UTF-8 encoding of `s`; on failure returns a description of the cause.
    fn write_str(&mut self, s: &str) -> (r: Result<(), String>)
        ensures
            final(self).error_path() == old(self).error_path(),
            final(self).never_fails() == old(self).never_fails(),
            final(self).writer_id() == old(self).writer_id(),
            old(self).never_fails() ==> r is Ok,
            r is Ok ==> final(self).written() == old(self).written() + encode_utf8(s@),
    ;

    /// Turns a failure into a write error on this writer's path.
    fn convert_err<T>(&self, result: Result<T, String>) -> (r: Result<T, Error>)
        ensures
            match result {
                Ok(v) => r == Ok::<T, Error>(v),
                Err(e) => r matches Err(x) && x.is_file_io(
                    FileIoAction::WriteTo,
                    FileKind::File,
                    self.error_path(),
                    Some(e@),
                ),
            },
    ;

    /// Drops the success value and converts the failure.
    fn wrap_result<T>(&self, result: Result<T, String>) -> (r: Result<(), Error>)
        ensures
            result is Ok <==> r is Ok,
            result matches Err(e) ==> r matches Err(x) && x.is_file_io(
                FileIoAction::WriteTo,
                FileKind::File,
                self.error_path(),
                Some(e@),
            ),
    {
        let unit = match result {
            Ok(_) => Ok(()),
            Err(e) => Err(e),
        };
        self.convert_err(unit)
    }

    /// Appends `s`, reporting a failure as a write error on this writer's path.
    fn str_write(&mut self, s: &str) -> (r: Result<(), Error>)
        ensures
            final(self).error_path() == old(self).error_path(),
            final(self).never_fails() == old(self).never_fails(),
            final(self).writer_id() == old(self).writer_id(),
            old(self).never_fails() ==> r is Ok,
            r is Ok ==> final(self).written() == old(self).written() + encode_utf8(s@),
            r matches Err(x) ==> exists|c: Seq<char>|
                x.is_file_io(FileIoAction::WriteTo, FileKind::File, old(self).error_path(), Some(c)),
    {
        let res = self.write_str(s);
        self.wrap_result(res)
    }
}

/// A [`Utf8Writer`] that also accepts raw bytes.
pub trait Writer: Utf8Writer {
    /// Appends `bytes`; on failure returns a description of the cause.
    fn write_bytes(&mut self, bytes: &[u8]) -> (r: Result<(), String>)
        ensures
            final(self).error_path() == old(self).error_path(),
            final(self).never_fails() == old(self).never_fails(),
            final(self).writer_id() == old(self).writer_id(),
            old(self).never_fails() ==> r is Ok,
            r is Ok ==> final(self).written() == old(self).written() + bytes@,
    ;

    /// Appends `bytes`, reporting a failure as a write error on this writer's path.
    fn write(&mut self, bytes: &[u8]) -> (r: Result<(), Error>)
        ensures
            final(self).error_path() == old(self).error_path(),
            final(self).never_fails() == old(self).never_fails(),
            final(self).writer_id() == old(self).writer_id(),
            old(self).never_fails() ==> r is Ok,
            r is Ok ==> final(self).written() == old(self).written() + bytes@,
            r matches Err(x) ==> exists|c: Seq<char>|
                x.is_file_io(FileIoAction::WriteTo, FileKind::File, old(self).error_path(), Some(c)),
    {
        let res = self.write_bytes(bytes);
        self.wrap_result(res)
    }
}

/// A plain string is an in-memory text buffer; its failures name a fixed sentinel path.
impl Utf8Writer for String {
    open spec fn error_path(&self) -> Seq<char> {
        "<in memory>"@
    }

    open spec fn written(&self) -> Seq<u8> {
        encode_utf8(self@)
    }

    open spec fn never_fails(&self) -> bool {
        true
    }

    open spec fn writer_id(&self) -> nat {
        0
    }

    fn write_str(&mut self, s: &str) -> (r: Result<(), String>)
        ensures
            r is Ok,
    {
        proof {
            lemma_encode_utf8_concat(self@, s@);
        }
        self.append(s);
        Ok(())
    }

    fn convert_err<T>(&self, result: Result<T, String>) -> (r: Result<T, Error>) {
        match result {
            Ok(v) => Ok(v),
            Err(e) => {
                let path = String::from_str("<in memory>");
                Err(Error::write_to_file(path, e))
            },
        }
    }
}

} // verus!
