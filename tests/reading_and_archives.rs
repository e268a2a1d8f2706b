use compiler_core::error::{Error, FileIoAction, FileKind};
use compiler_core::fs::{decode_text, unpack_outcome, utf8_text, FileSystemReader, TarUnpacker};
use compiler_core::wrapped::WrappedReader;
use compiler_core::write::ByteSource;
use std::io::Read;

struct SliceSource {
    bytes: Vec<u8>,
    at: usize,
}

impl ByteSource for SliceSource {
    fn read(&mut self, buffer: &mut [u8]) -> Result<usize, String> {
        let n = buffer.len().min(self.bytes.len() - self.at);
        buffer[..n].copy_from_slice(&self.bytes[self.at..self.at + n]);
        self.at += n;
        Ok(n)
    }
}

/// A backend holding a fixed list of files.
struct FixedFiles {
    files: Vec<(String, Vec<u8>)>,
    dirs: Vec<String>,
}

impl FileSystemReader for FixedFiles {
    type Source = SliceSource;

    fn gleam_files(&self, dir: &str) -> Vec<String> {
        self.files.iter().map(|(p, _)| p.clone()).filter(|p| p.starts_with(dir)).collect()
    }

    fn read(&self, path: &str) -> Result<String, Error> {
        match self.files.iter().find(|(p, _)| p == path) {
            Some((_, b)) => decode_text(path, b.clone()),
            None => Err(Error::new(FileIoAction::ReadFrom, FileKind::File, path.to_string(), None)),
        }
    }

    fn reader(&self, path: &str) -> Result<WrappedReader<SliceSource>, Error> {
        match self.files.iter().find(|(p, _)| p == path) {
            Some((_, b)) => Ok(WrappedReader::new(path, SliceSource { bytes: b.clone(), at: 0 })),
            None => Err(Error::new(FileIoAction::ReadFrom, FileKind::File, path.to_string(), None)),
        }
    }

    fn is_file(&self, path: &str) -> bool {
        self.files.iter().any(|(p, _)| p == path)
    }

    fn is_directory(&self, path: &str) -> bool {
        self.dirs.iter().any(|d| d == path)
    }
}

fn fixture() -> FixedFiles {
    FixedFiles {
        files: vec![
            ("/src/a.gleam".to_string(), b"pub fn a() { 1 }".to_vec()),
            ("/src/bad.gleam".to_string(), vec![0x61, 0xc3, 0x28]),
        ],
        dirs: vec!["/src".to_string()],
    }
}

#[test]
fn invalid_utf8_is_a_read_error_without_text() {
    let r = decode_text("/x.txt", vec![0x66, 0x6f, 0x80]);
    match r {
        Err(Error::FileIo { action, kind, path, err }) => {
            assert_eq!(action, FileIoAction::ReadFrom);
            assert_eq!(kind, FileKind::File);
            assert_eq!(path, "/x.txt");
            assert_eq!(err, Some("stream did not contain valid UTF-8".to_string()));
        }
        Ok(_) => panic!("invalid UTF-8 was accepted"),
    }
}

#[test]
fn valid_utf8_decodes_whole() {
    assert_eq!(decode_text("/y", "héllo".as_bytes().to_vec()).unwrap(), "héllo");
    assert_eq!(decode_text("/y", Vec::new()).unwrap(), "");
    assert_eq!(utf8_text(vec![0x68, 0x69]), Some("hi".to_string()));
    assert_eq!(utf8_text(vec![0xc3]), None);
}

#[test]
fn backend_read_rejects_invalid_utf8() {
    let fs = fixture();
    assert_eq!(fs.read("/src/a.gleam").unwrap(), "pub fn a() { 1 }");
    let e = fs.read("/src/bad.gleam").unwrap_err();
    assert_eq!(e.path(), "/src/bad.gleam");
    assert_eq!(fs.gleam_files("/src").len(), 2);
}

#[test]
fn missing_paths_are_neither_files_nor_directories() {
    let fs = fixture();
    assert!(!fs.is_file("/nope"));
    assert!(!fs.is_directory("/nope"));
    assert!(fs.is_file("/src/a.gleam"));
    assert!(fs.is_directory("/src"));
}

#[test]
fn wrapped_reader_hands_out_the_stream_in_order() {
    let fs = fixture();
    let mut r = fs.reader("/src/a.gleam").unwrap();
    assert_eq!(r.path(), "/src/a.gleam");
    let mut buf = [0u8; 6];
    assert_eq!(r.read(&mut buf).unwrap(), 6);
    assert_eq!(&buf, b"pub fn");
    let mut rest = [0u8; 64];
    assert_eq!(r.read(&mut rest).unwrap(), 10);
    assert_eq!(&rest[..10], b" a() { 1 }");
    assert_eq!(r.read(&mut rest).unwrap(), 0);
}

#[test]
fn unpack_outcome_maps_failures_onto_the_directory() {
    assert!(unpack_outcome("/target", Ok(())).is_ok());
    match unpack_outcome("/target", Err("corrupt deflate stream".to_string())) {
        Err(Error::FileIo { action, kind, path, err }) => {
            assert_eq!(action, FileIoAction::WriteTo);
            assert_eq!(kind, FileKind::Directory);
            assert_eq!(path, "/target");
            assert_eq!(err, Some("corrupt deflate stream".to_string()));
        }
        Ok(()) => panic!("failure was lost"),
    }
}

/// Reads every entry of the archive through to its end without touching disk.
struct DryRunUnpacker;

type GzTar<'a> = tar::Archive<flate2::read::GzDecoder<&'a [u8]>>;

impl<'a> TarUnpacker<GzTar<'a>> for DryRunUnpacker {
    fn io_result_unpack(&self, _path: &str, mut archive: GzTar<'a>) -> Result<(), String> {
        let entries = archive.entries().map_err(|e| e.to_string())?;
        for entry in entries {
            let mut entry = entry.map_err(|e| e.to_string())?;
            let mut sink = Vec::new();
            entry.read_to_end(&mut sink).map_err(|e| e.to_string())?;
        }
        Ok(())
    }
}

fn gz_tar() -> Vec<u8> {
    let gz = flate2::write::GzEncoder::new(Vec::new(), flate2::Compression::default());
    let mut builder = tar::Builder::new(gz);
    let data = b"hello archive";
    let mut header = tar::Header::new_gnu();
    header.set_size(data.len() as u64);
    header.set_mode(0o644);
    header.set_cksum();
    builder.append_data(&mut header, "hello.txt", &data[..]).unwrap();
    builder.into_inner().unwrap().finish().unwrap()
}

#[test]
fn valid_archive_unpacks() {
    let bytes = gz_tar();
    let archive = tar::Archive::new(flate2::read::GzDecoder::new(&bytes[..]));
    assert!(DryRunUnpacker.unpack("/target", archive).is_ok());
}

#[test]
fn corrupted_archive_fails_on_the_target_directory() {
    let mut bytes = gz_tar();
    let n = bytes.len();
    for b in bytes[10..n - 8].iter_mut() {
        *b ^= 0x5a;
    }
    let archive = tar::Archive::new(flate2::read::GzDecoder::new(&bytes[..]));
    match DryRunUnpacker.unpack("/target", archive) {
        Err(Error::FileIo { action, kind, path, err }) => {
            assert_eq!(action, FileIoAction::WriteTo);
            assert_eq!(kind, FileKind::Directory);
            assert_eq!(path, "/target");
            assert!(!err.unwrap().is_empty());
        }
        Ok(()) => panic!("corrupted archive unpacked"),
    }
}
