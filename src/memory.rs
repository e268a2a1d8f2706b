use vstd::prelude::*;
use vstd::string::*;
use vstd::utf8::*;
use crate::error::Error;
use crate::fs::{FileSystemWriter, utf8_text};
use crate::wrapped::{OutputFile, WrappedWriter};
use crate::write::{ByteSink, Utf8Writer, Writer};

verus! {

/// A handle on one buffer of a [`SharedBuffers`]; each handle counts as one owner.
#[derive(Debug)]
pub struct InMemoryFile {
    id: usize,
}

impl InMemoryFile {
    pub closed spec fn id_view(&self) -> nat {
        self.id as nat
    }
}

/// One buffer and the number of handles that own it.
struct Slot {
    bytes: Vec<u8>,
    owners: usize,
}

/// Growable byte buffers, each with the number of handles that own it.
pub struct SharedBuffers {
    slots: Vec<Slot>,
}

impl SharedBuffers {
    pub closed spec fn count(&self) -> nat {
        self.slots@.len()
    }

    /// The bytes of buffer `id`.
    pub closed spec fn buffer(&self, id: nat) -> Seq<u8> {
        self.slots@[id as int].bytes@
    }

    /// How many handles own buffer `id`.
    pub closed spec fn owner_count(&self, id: nat) -> nat {
        self.slots@[id as int].owners as nat
    }

    pub fn new() -> (r: Self)
        ensures
            r.count() == 0,
    {
        SharedBuffers { slots: Vec::new() }
    }

    /// A fresh empty buffer with one owner, the handle returned.
    pub fn create(&mut self) -> (r: InMemoryFile)
        ensures
            r.id_view() == old(self).count(),
            final(self).count() == old(self).count() + 1,
            final(self).buffer(r.id_view()) == Seq::<u8>::empty(),
            final(self).owner_count(r.id_view()) == 1,
            forall|i: nat|
                i < old(self).count() ==> final(self).buffer(i) == old(self).buffer(i)
                    && final(self).owner_count(i) == old(self).owner_count(i),
    {
        let id = self.slots.len();
        self.slots.push(Slot { bytes: Vec::new(), owners: 1 });
        InMemoryFile { id }
    }

    /// One more owner of `file`'s buffer, the handle returned.
    pub fn share(&mut self, file: &InMemoryFile) -> (r: InMemoryFile)
        requires
            file.id_view() < old(self).count(),
            old(self).owner_count(file.id_view()) < usize::MAX,
        ensures
            r.id_view() == file.id_view(),
            final(self).count() == old(self).count(),
            final(self).owner_count(file.id_view()) == old(self).owner_count(file.id_view()) + 1,
            forall|i: nat|
                i < old(self).count() ==> final(self).buffer(i) == old(self).buffer(i),
            forall|i: nat|
                i < old(self).count() && i != file.id_view() ==> final(self).owner_count(i)
                    == old(self).owner_count(i),
    {
        self.slots[file.id].owners = self.slots[file.id].owners + 1;
        InMemoryFile { id: file.id }
    }

    /// Gives up `file`'s share of its buffer.
    pub fn release(&mut self, file: InMemoryFile)
        ensures
            final(self).count() == old(self).count(),
            forall|i: nat|
                i < old(self).count() ==> final(self).buffer(i) == old(self).buffer(i),
            forall|i: nat|
                i < old(self).count() && i != file.id_view() ==> final(self).owner_count(i)
                    == old(self).owner_count(i),
            file.id_view() < old(self).count() ==> final(self).owner_count(file.id_view()) == if old(
                self,
            ).owner_count(file.id_view()) > 0 {
                old(self).owner_count(file.id_view()) - 1
            } else {
                0
            },
    {
        if file.id < self.slots.len() && self.slots[file.id].owners > 0 {
            self.slots[file.id].owners = self.slots[file.id].owners - 1;
        }
    }

    /// Mutable access to the bytes of `file`'s buffer alone.
    pub fn bytes_mut(&mut self, file: &InMemoryFile) -> (r: &mut Vec<u8>)
        requires
            file.id_view() < old(self).count(),
        ensures
            r@ == old(self).buffer(file.id_view()),
            final(self).count() == old(self).count(),
            final(self).buffer(file.id_view()) == final(r)@,
            forall|i: nat|
                i < old(self).count() ==> final(self).owner_count(i) == old(self).owner_count(i),
            forall|i: nat|
                i < old(self).count() && i != file.id_view() ==> final(self).buffer(i) == old(
                    self,
                ).buffer(i),
    {
        &mut self.slots[file.id].bytes
    }

    /// Takes `file`'s buffer out, which succeeds exactly when `file` is its only
    /// owner; otherwise the share is given up and nothing else changes.
    pub fn into_contents(&mut self, file: InMemoryFile) -> (r: Result<Vec<u8>, ()>)
        ensures
            final(self).count() == old(self).count(),
            r is Ok <==> file.id_view() < old(self).count() && old(self).owner_count(
                file.id_view(),
            ) == 1,
            r matches Ok(v) ==> v@ == old(self).buffer(file.id_view()),
            r is Err && file.id_view() < old(self).count() ==> final(self).buffer(file.id_view())
                == old(self).buffer(file.id_view()),
            forall|i: nat|
                i < old(self).count() && i != file.id_view() ==> final(self).buffer(i) == old(
                    self,
                ).buffer(i) && final(self).owner_count(i) == old(self).owner_count(i),
            file.id_view() < old(self).count() ==> final(self).owner_count(file.id_view()) == if old(
                self,
            ).owner_count(file.id_view()) > 0 {
                old(self).owner_count(file.id_view()) - 1
            } else {
                0
            },
    {
        if file.id < self.slots.len() && self.slots[file.id].owners == 1 {
            let mut buf: Vec<u8> = Vec::new();
            std::mem::swap(&mut buf, &mut self.slots[file.id].bytes);
            self.slots[file.id].owners = 0;
            Ok(buf)
        } else {
            self.release(file);
            Err(())
        }
    }
}

/// A file being written: one owner's handle on a shared buffer, and the bytes
/// written so far, which reach the buffer when the file is closed.
pub struct PendingFile {
    file: InMemoryFile,
    bytes: Vec<u8>,
}

impl PendingFile {
    /// The id of the shared buffer this file belongs to.
    pub closed spec fn file_id(&self) -> nat {
        self.file.id_view()
    }
}

impl ByteSink for PendingFile {
    closed spec fn contents(&self) -> Seq<u8> {
        self.bytes@
    }

    open spec fn infallible(&self) -> bool {
        true
    }

    open spec fn sink_id(&self) -> nat {
        self.file_id()
    }

    fn write_all(&mut self, bytes: &[u8]) -> (r: Result<(), String>)
        ensures
            r is Ok,
            final(self).file_id() == old(self).file_id(),
    {
        let mut i: usize = 0;
        while i < bytes.len()
            invariant
                i <= bytes@.len(),
                self.file == old(self).file,
                self.bytes@ == old(self).bytes@ + bytes@.subrange(0, i as int),
            decreases bytes@.len() - i,
        {
            self.bytes.push(bytes[i]);
            i = i + 1;
        }
        assert(bytes@.subrange(0, i as int) =~= bytes@);
        Ok(())
    }

    fn flush(&mut self) -> (r: Result<(), String>)
        ensures
            r is Ok,
            final(self).file_id() == old(self).file_id(),
    {
        Ok(())
    }
}

/// Written to directly, a pending file attributes failures to a fixed test-file sentinel.
impl Utf8Writer for PendingFile {
    open spec fn error_path(&self) -> Seq<char> {
        "<in memory test file>"@
    }

    open spec fn written(&self) -> Seq<u8> {
        self.contents()
    }

    open spec fn never_fails(&self) -> bool {
        true
    }

    open spec fn writer_id(&self) -> nat {
        self.file_id()
    }

    fn write_str(&mut self, s: &str) -> (r: Result<(), String>)
        ensures
            r is Ok,
    {
        self.write_all(s.as_bytes())
    }

    fn convert_err<T>(&self, result: Result<T, String>) -> (r: Result<T, Error>) {
        match result {
            Ok(v) => Ok(v),
            Err(e) => Err(Error::write_to_file(String::from_str("<in memory test file>"), e)),
        }
    }
}

impl Writer for PendingFile {
    fn write_bytes(&mut self, bytes: &[u8]) -> (r: Result<(), String>)
        ensures
            r is Ok,
    {
        self.write_all(bytes)
    }
}

/// A write-only backend that keeps every file in memory and queues one
/// `(path, file)` message per opened file, in opening order.
pub struct FilesChannel {
    buffers: SharedBuffers,
    queue: Vec<(String, InMemoryFile)>,
}

impl FilesChannel {
    /// Every queued message names its own buffer, and that buffer exists.
    pub closed spec fn wf(&self) -> bool {
        &&& forall|i: int|
            0 <= i < self.queue@.len() ==> (#[trigger] self.queue@[i]).1.id_view()
                < self.buffers.count()
        &&& forall|i: int, j: int|
            0 <= i < j < self.queue@.len() ==> (#[trigger] self.queue@[i]).1.id_view()
                != (#[trigger] self.queue@[j]).1.id_view()
    }

    /// The queued messages: each path with the id of its buffer.
    pub closed spec fn messages(&self) -> Seq<(Seq<char>, nat)> {
        self.queue@.map_values(|m: (String, InMemoryFile)| (m.0@, m.1.id_view()))
    }

    pub closed spec fn buffers_view(&self) -> SharedBuffers {
        self.buffers
    }

    pub fn new() -> (r: Self)
        ensures
            r.wf(),
            r.messages() == Seq::<(Seq<char>, nat)>::empty(),
            r.buffers_view().count() == 0,
    {
        FilesChannel { buffers: SharedBuffers::new(), queue: Vec::new() }
    }

    /// Opens an empty file for `path`: one owner of its buffer is the queued
    /// message, the other the returned writer until it is closed.
    pub fn open(&mut self, path: &str) -> (r: WrappedWriter<PendingFile>)
        requires
            old(self).wf(),
        ensures
            final(self).wf(),
            final(self).messages() == old(self).messages().push(
                (path@, old(self).buffers_view().count()),
            ),
            final(self).buffers_view().count() == old(self).buffers_view().count() + 1,
            final(self).buffers_view().buffer(old(self).buffers_view().count()) == Seq::<
                u8,
            >::empty(),
            final(self).buffers_view().owner_count(old(self).buffers_view().count()) == 2,
            forall|i: nat|
                i < old(self).buffers_view().count() ==> final(self).buffers_view().buffer(i)
                    == old(self).buffers_view().buffer(i) && final(self).buffers_view().owner_count(
                    i,
                ) == old(self).buffers_view().owner_count(i),
            r.path_view() == path@,
            r.inner_view().file_id() == old(self).buffers_view().count(),
            r.inner_view().contents() == Seq::<u8>::empty(),
    {
        let file = self.buffers.create();
        let shared = self.buffers.share(&file);
        self.queue.push((String::from_str(path), shared));
        proof {
            assert forall|i: int, j: int|
                0 <= i < j < self.queue@.len() implies (#[trigger] self.queue@[i]).1.id_view()
                != (#[trigger] self.queue@[j]).1.id_view() by {
                if j == self.queue@.len() - 1 {
                    assert(self.queue@[i] == old(self).queue@[i]);
                }
            }
        }
        WrappedWriter::new(path, PendingFile { file, bytes: Vec::new() })
    }

    /// Closes a file that `open` handed out: its bytes are appended to its
    /// buffer and the writer's share is given back.
    pub fn close(&mut self, writer: WrappedWriter<PendingFile>)
        requires
            old(self).wf(),
        ensures
            final(self).wf(),
            final(self).messages() == old(self).messages(),
            final(self).buffers_view().count() == old(self).buffers_view().count(),
            writer.inner_view().file_id() < old(self).buffers_view().count()
                ==> final(self).buffers_view().buffer(writer.inner_view().file_id())
                == old(self).buffers_view().buffer(writer.inner_view().file_id())
                + writer.inner_view().contents(),
            writer.inner_view().file_id() < old(self).buffers_view().count()
                ==> final(self).buffers_view().owner_count(writer.inner_view().file_id())
                == if old(self).buffers_view().owner_count(writer.inner_view().file_id()) > 0 {
                old(self).buffers_view().owner_count(writer.inner_view().file_id()) - 1
            } else {
                0
            },
            forall|i: nat|
                i < old(self).buffers_view().count() && i != writer.inner_view().file_id()
                    ==> final(self).buffers_view().buffer(i) == old(self).buffers_view().buffer(i)
                    && final(self).buffers_view().owner_count(i)
                    == old(self).buffers_view().owner_count(i),
    {
        let pending = writer.into_inner();
        let PendingFile { file, bytes } = pending;
        if file.id < self.buffers.slots.len() {
            let buf = self.buffers.bytes_mut(&file);
            let mut i: usize = 0;
            while i < bytes.len()
                invariant
                    i <= bytes@.len(),
                    buf@ == old(self).buffers.buffer(file.id_view()) + bytes@.subrange(0, i as int),
                decreases bytes@.len() - i,
            {
                buf.push(bytes[i]);
                i = i + 1;
            }
            assert(bytes@.subrange(0, i as int) =~= bytes@);
        }
        self.buffers.release(file);
    }
}

/// The buffer that message `k` of `messages` names holds exactly one owner and valid UTF-8.
pub open spec fn message_ready(
    buffers: SharedBuffers,
    messages: Seq<(Seq<char>, nat)>,
    k: int,
) -> bool {
    let id = messages[k].1;
    &&& id < buffers.count()
    &&& buffers.owner_count(id) == 1
    &&& valid_utf8(buffers.buffer(id))
}

impl FilesChannel {
    /// Receives every queued file, in the order the files were opened, as text.
    /// Fails if any file is still shared or is not UTF-8.
    pub fn recv_utf8_files(&mut self) -> (r: Result<Vec<OutputFile>, ()>)
        requires
            old(self).wf(),
        ensures
            final(self).wf(),
            r is Ok <==> forall|k: int|
                0 <= k < old(self).messages().len() ==> message_ready(
                    old(self).buffers_view(),
                    old(self).messages(),
                    k,
                ),
            r matches Ok(files) ==> {
                &&& files@.len() == old(self).messages().len()
                &&& final(self).messages().len() == 0
                &&& forall|k: int|
                    0 <= k < files@.len() ==> (#[trigger] files@[k]).path@ == old(
                        self,
                    ).messages()[k].0 && encode_utf8(files@[k].text@)
                        == old(self).buffers_view().buffer(old(self).messages()[k].1)
            },
    {
        let ghost b0 = self.buffers;
        let ghost m0 = self.messages();
        let mut pending: Vec<(String, InMemoryFile)> = Vec::new();
        std::mem::swap(&mut pending, &mut self.queue);
        assert(pending@.map_values(|m: (String, InMemoryFile)| (m.0@, m.1.id_view())) =~= m0);
        let n = pending.len();
        let mut files: Vec<OutputFile> = Vec::new();
        let mut i: usize = 0;
        while i < n
            invariant
                b0 == old(self).buffers_view(),
                m0 == old(self).messages(),
                n == m0.len(),
                i <= n,
                self.queue@.len() == 0,
                self.buffers.count() == b0.count(),
                pending@.len() == n - i,
                forall|k: int|
                    0 <= k < pending@.len() ==> (#[trigger] pending@[k]).0@ == m0[i + k].0
                        && pending@[k].1.id_view() == m0[i + k].1,
                forall|k: int|
                    0 <= k < n ==> m0[k].1 < b0.count(),
                forall|k: int, l: int| 0 <= k < l < n ==> #[trigger] m0[k].1 != #[trigger] m0[l].1,
                forall|k: int|
                    i <= k < n ==> self.buffers.owner_count(#[trigger] m0[k].1) == b0.owner_count(
                        m0[k].1,
                    ) && self.buffers.buffer(m0[k].1) == b0.buffer(m0[k].1),
                forall|k: int| 0 <= k < i ==> message_ready(b0, m0, k),
                files@.len() == i,
                forall|k: int|
                    0 <= k < i ==> (#[trigger] files@[k]).path@ == m0[k].0 && encode_utf8(
                        files@[k].text@,
                    ) == b0.buffer(m0[k].1),
            decreases n - i,
        {
            let (path, file) = pending.remove(0);
            let ghost id = file.id_view();
            assert(id == m0[i as int].1);
            let contents = match self.buffers.into_contents(file) {
                Ok(c) => c,
                Err(()) => {
                    assert(!message_ready(b0, m0, i as int));
                    return Err(());
                },
            };
            let text = match utf8_text(contents) {
                Some(t) => t,
                None => {
                    assert(!message_ready(b0, m0, i as int));
                    return Err(());
                },
            };
            files.push(OutputFile { text, path });
            assert forall|k: int| i + 1 <= k < n implies self.buffers.owner_count(
                #[trigger] m0[k].1,
            ) == b0.owner_count(m0[k].1) && self.buffers.buffer(m0[k].1) == b0.buffer(
                m0[k].1,
            ) by {
                assert(m0[i as int].1 != m0[k].1);
            }
            i = i + 1;
        }
        proof {
            assert(self.messages() =~= Seq::<(Seq<char>, nat)>::empty());
        }
        Ok(files)
    }
}

impl FileSystemWriter for FilesChannel {
    type Sink<'a> = PendingFile;

    open spec fn writer_wf(&self) -> bool {
        self.wf()
    }

    fn writer<'a>(&'a mut self, path: &str) -> (r: Result<WrappedWriter<PendingFile>, Error>)
        ensures
            r is Ok,
            final(self).messages() == old(self).messages().push(
                (path@, old(self).buffers_view().count()),
            ),
            final(self).buffers_view().count() == old(self).buffers_view().count() + 1,
            final(self).buffers_view().buffer(old(self).buffers_view().count()) == Seq::<
                u8,
            >::empty(),
            final(self).buffers_view().owner_count(old(self).buffers_view().count()) == 2,
            forall|i: nat|
                i < old(self).buffers_view().count() ==> final(self).buffers_view().buffer(i)
                    == old(self).buffers_view().buffer(i) && final(self).buffers_view().owner_count(
                    i,
                ) == old(self).buffers_view().owner_count(i),
            r matches Ok(w) ==> w.inner_view().file_id() == old(self).buffers_view().count()
                && w.inner_view().contents() == Seq::<u8>::empty(),
    {
        Ok(self.open(path))
    }
}

} // verus!
