use vstd::prelude::*;
use vstd::string::*;
use vstd::utf8::*;
use crate::error::{Error, FileIoAction, FileKind};
use crate::write::{ByteSink, ByteSource, Utf8Writer, Writer};

verus! {

/// A fully materialised artifact, destined for a writer.
#[derive(Debug, Clone)]
pub struct OutputFile {
    pub text: String,
    pub path: String,
}

impl PartialEq for OutputFile {
    fn eq(&self, other: &OutputFile) -> (r: bool) {
        string_eq(&self.text, &other.text) && string_eq(&self.path, &other.path)
    }
}

impl vstd::std_specs::cmp::PartialEqSpecImpl for OutputFile {
    open spec fn obeys_eq_spec() -> bool {
        true
    }

    open spec fn eq_spec(&self, other: &OutputFile) -> bool {
        self.text@ == other.text@ && self.path@ == other.path@
    }
}

/// Whether two strings hold the same characters.
fn string_eq(a: &String, b: &String) -> (r: bool)
    ensures
        r == (a@ == b@),
{
    let x = a.as_str();
    let y = b.as_str();
    let xb = x.as_bytes();
    let yb = y.as_bytes();
    if xb.len() != yb.len() {
        return false;
    }
    let mut i: usize = 0;
    while i < xb.len()
        invariant
            x@ == a@,
            y@ == b@,
            xb@ == x.spec_bytes(),
            yb@ == y.spec_bytes(),
            xb@.len() == yb@.len(),
            i <= xb@.len(),
            xb@.subrange(0, i as int) == yb@.subrange(0, i as int),
        decreases xb@.len() - i,
    {
        if xb[i] != yb[i] {
            proof {
                if a@ == b@ {
                    assert(xb@[i as int] == yb@[i as int]);
                }
            }
            return false;
        }
        assert(xb@.subrange(0, i + 1) =~= xb@.subrange(0, i as int).push(xb@[i as int]));
        assert(yb@.subrange(0, i + 1) =~= yb@.subrange(0, i as int).push(yb@[i as int]));
        i = i + 1;
    }
    proof {
        assert(xb@ =~= xb@.subrange(0, i as int));
        assert(yb@ =~= yb@.subrange(0, i as int));
        encode_utf8_decode_utf8(a@);
        encode_utf8_decode_utf8(b@);
    }
    true
}

/// A readable stream paired with the path it was opened from.
pub struct WrappedReader<R> {
    path: String,
    inner: R,
}

impl<R: ByteSource> WrappedReader<R> {
    pub closed spec fn path_view(&self) -> Seq<char> {
        self.path@
    }

    pub closed spec fn remaining(&self) -> Seq<u8> {
        self.inner.remaining()
    }

    pub fn new(path: &str, inner: R) -> (r: Self)
        ensures
            r.path_view() == path@,
            r.remaining() == inner.remaining(),
    {
        WrappedReader { path: String::from_str(path), inner }
    }

    pub fn path(&self) -> (r: &String)
        ensures
            r@ == self.path_view(),
    {
        &self.path
    }

    /// Reads from the inner stream; low-level failures pass through unconverted.
    pub fn read(&mut self, buffer: &mut [u8]) -> (r: Result<usize, String>)
        ensures
            final(self).path_view() == old(self).path_view(),
            final(buffer)@.len() == old(buffer)@.len(),
            r is Ok ==> {
                let n = r->Ok_0 as int;
                &&& n <= old(buffer)@.len()
                &&& n <= old(self).remaining().len()
                &&& final(buffer)@.subrange(0, n) == old(self).remaining().subrange(0, n)
                &&& final(self).remaining() == old(self).remaining().subrange(
                    n,
                    old(self).remaining().len() as int,
                )
                &&& (n == 0 ==> old(buffer)@.len() == 0 || old(self).remaining().len() == 0)
            },
    {
        self.inner.read(buffer)
    }
}

/// A writable stream paired with the path it was opened from; every failure
/// raised through it names that path.
pub struct WrappedWriter<W> {
    path: String,
    inner: W,
}

impl<W: ByteSink> WrappedWriter<W> {
    pub closed spec fn path_view(&self) -> Seq<char> {
        self.path@
    }

    pub closed spec fn inner_view(&self) -> W {
        self.inner
    }

    pub fn new(path: &str, inner: W) -> (r: Self)
        ensures
            r.path_view() == path@,
            r.inner_view() == inner,
    {
        WrappedWriter { path: String::from_str(path), inner }
    }

    pub fn path(&self) -> (r: &String)
        ensures
            r@ == self.path_view(),
    {
        &self.path
    }

    /// Gives the inner stream back.
    pub fn into_inner(self) -> (r: W)
        ensures
            r == self.inner_view(),
    {
        self.inner
    }

    /// Appends `bytes`; a failure becomes a write error on this writer's path.
    pub fn write(&mut self, bytes: &[u8]) -> (r: Result<(), Error>)
        ensures
            final(self).path_view() == old(self).path_view(),
            final(self).inner_view().infallible() == old(self).inner_view().infallible(),
            final(self).inner_view().sink_id() == old(self).inner_view().sink_id(),
            old(self).inner_view().infallible() ==> r is Ok,
            r is Ok ==> final(self).inner_view().contents() == old(self).inner_view().contents()
                + bytes@,
            r matches Err(x) ==> exists|c: Seq<char>|
                x.is_file_io(FileIoAction::WriteTo, FileKind::File, old(self).path_view(), Some(c)),
    {
        let result = self.inner.write_all(bytes);
        self.wrap_result(result)
    }

    /// Flushes the inner stream; low-level failures pass through unconverted.
    pub fn flush(&mut self) -> (r: Result<(), String>)
        ensures
            final(self).path_view() == old(self).path_view(),
            final(self).inner_view().infallible() == old(self).inner_view().infallible(),
            final(self).inner_view().sink_id() == old(self).inner_view().sink_id(),
            old(self).inner_view().infallible() ==> r is Ok,
            final(self).inner_view().contents() == old(self).inner_view().contents(),
    {
        self.inner.flush()
    }
}

impl<W: ByteSink> Utf8Writer for WrappedWriter<W> {
    open spec fn error_path(&self) -> Seq<char> {
        self.path_view()
    }

    open spec fn written(&self) -> Seq<u8> {
        self.inner_view().contents()
    }

    open spec fn never_fails(&self) -> bool {
        self.inner_view().infallible()
    }

    open spec fn writer_id(&self) -> nat {
        self.inner_view().sink_id()
    }

    fn write_str(&mut self, s: &str) -> (r: Result<(), String>) {
        self.inner.write_all(s.as_bytes())
    }

    fn convert_err<T>(&self, result: Result<T, String>) -> (r: Result<T, Error>) {
        match result {
            Ok(v) => Ok(v),
            Err(e) => Err(Error::write_to_file(self.path.clone(), e)),
        }
    }
}

impl<W: ByteSink> Writer for WrappedWriter<W> {
    fn write_bytes(&mut self, bytes: &[u8]) -> (r: Result<(), String>) {
        self.inner.write_all(bytes)
    }
}

} // verus!
