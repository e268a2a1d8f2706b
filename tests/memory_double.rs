use compiler_core::error::Error;
use compiler_core::fs::FileSystemWriter;
use compiler_core::memory::{FilesChannel, SharedBuffers};
use compiler_core::write::{Utf8Writer, Writer};

#[test]
fn reclaim_succeeds_only_for_the_last_owner() {
    let mut buffers = SharedBuffers::new();
    let file = buffers.create();
    let message = buffers.share(&file);
    buffers.bytes_mut(&file).extend_from_slice(b"hi");
    // Two owners: the writer's handle cannot take the buffer; its share is given up.
    assert!(buffers.into_contents(file).is_err());
    // One owner left: the message's handle takes it, bytes intact.
    assert_eq!(buffers.into_contents(message).unwrap(), b"hi".to_vec());
}

#[test]
fn reclaim_after_release_succeeds() {
    let mut buffers = SharedBuffers::new();
    let file = buffers.create();
    let other = buffers.share(&file);
    buffers.release(other);
    assert_eq!(buffers.into_contents(file).unwrap(), Vec::<u8>::new());
}

#[test]
fn drain_fails_while_a_writer_is_still_open() {
    let mut channel = FilesChannel::new();
    let mut w = channel.open("/a");
    assert!(w.write(b"text").is_ok());
    assert!(channel.recv_utf8_files().is_err());
}

#[test]
fn drain_returns_files_in_send_order() {
    let mut channel = FilesChannel::new();
    let mut a = channel.writer("/a").unwrap();
    assert!(a.write(b"alpha").is_ok());
    channel.close(a);
    let mut b = channel.writer("/b").unwrap();
    assert!(b.write("beta".as_bytes()).is_ok());
    channel.close(b);
    let files = channel.recv_utf8_files().unwrap();
    let pairs: Vec<(String, String)> = files.into_iter().map(|f| (f.path, f.text)).collect();
    assert_eq!(
        pairs,
        vec![("/a".to_string(), "alpha".to_string()), ("/b".to_string(), "beta".to_string())]
    );
    // Everything was received: a second drain finds nothing.
    assert_eq!(channel.recv_utf8_files().unwrap().len(), 0);
}

#[test]
fn drain_order_is_open_order_not_write_order() {
    let mut channel = FilesChannel::new();
    let mut a = channel.open("/a");
    let mut b = channel.open("/b");
    assert!(b.write(b"written first").is_ok());
    assert!(a.write(b"written second").is_ok());
    channel.close(b);
    channel.close(a);
    let files = channel.recv_utf8_files().unwrap();
    assert_eq!(files.len(), 2);
    assert_eq!((files[0].path.as_str(), files[0].text.as_str()), ("/a", "written second"));
    assert_eq!((files[1].path.as_str(), files[1].text.as_str()), ("/b", "written first"));
}

#[test]
fn mixed_writes_reach_the_drain_in_order() {
    let mut channel = FilesChannel::new();
    let mut w = channel.open("/m");
    assert!(w.write(b"ab").is_ok());
    assert!(w.str_write("cd").is_ok());
    assert!(w.write(&[]).is_ok());
    channel.close(w);
    let files = channel.recv_utf8_files().unwrap();
    assert_eq!(files[0].text, "abcd");
}

#[test]
fn drain_rejects_invalid_utf8() {
    let mut channel = FilesChannel::new();
    let mut w = channel.open("/bad");
    assert!(w.write(&[0xff]).is_ok());
    channel.close(w);
    assert!(channel.recv_utf8_files().is_err());
}

#[test]
fn empty_channel_drains_to_nothing() {
    let mut channel = FilesChannel::new();
    assert_eq!(channel.recv_utf8_files().unwrap().len(), 0);
}

#[test]
fn pending_file_written_directly_names_the_test_file_sentinel() {
    let mut channel = FilesChannel::new();
    let w = channel.open("/c");
    let mut pending = w.into_inner();
    assert!(pending.str_write("x").is_ok());
    assert!(pending.write(b"y").is_ok());
    let r: Result<(), Error> = pending.convert_err(Err("nope".to_string()));
    assert_eq!(r.unwrap_err().path(), "<in memory test file>");
}
