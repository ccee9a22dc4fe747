use burrito::Burrito;
use burrito::caps::{Readable, Writable, Seekable, BufReadable, SeekFrom};
use burrito::errors::ErrorKind;
use burrito::memhandle::MemHandle;

#[test]
fn short_read_yields_exactly_what_is_available() {
    // read(n) on a handle with only k < n bytes left: Good with exactly k
    // bytes, no error, no padding.
    let b = Burrito::wrap(Ok(MemHandle::new(b"abc".to_vec())));
    let out = b.read(10).to_data().unwrap();
    assert_eq!(out, b"abc".to_vec());
}

#[test]
fn read_at_end_is_empty_and_good() {
    let b = Burrito::wrap(Ok(MemHandle::new(Vec::new()))).read(5);
    assert!(b.is_good());
    assert_eq!(b.to_data().unwrap(), Vec::<u8>::new());
}

#[test]
fn read_in_steps() {
    let b = Burrito::wrap(Ok(MemHandle::new(b"hello world".to_vec())));
    let b = b.read(5);
    let b = b.and_then(|v, rest| {
        assert_eq!(v, b"hello".to_vec());
        rest.read(6)
    });
    assert_eq!(b.to_data().unwrap(), b" world".to_vec());
}

#[test]
fn read_to_end_drains_the_handle() {
    let b = Burrito::wrap(Ok(MemHandle::new(b"abcdef".to_vec()))).read(2).read_to_end();
    assert_eq!(b.to_data().unwrap(), b"cdef".to_vec());
}

#[test]
fn read_to_string_decodes_text() {
    let b = Burrito::wrap(Ok(MemHandle::new("héllo".as_bytes().to_vec())));
    assert_eq!(b.read_to_string().to_data().unwrap(), "héllo".to_string());
}

#[test]
fn read_to_string_refuses_invalid_text() {
    let b = Burrito::wrap(Ok(MemHandle::new(vec![0x66u8, 0xffu8])));
    let e = b.read_to_string().to_data().unwrap_err();
    assert_eq!(e.kind, ErrorKind::InvalidData);
}

#[test]
fn read_to_string_failure_moves_nothing() {
    let mut h = MemHandle::new(vec![0xffu8, 0x00u8]);
    assert!(h.read_to_string().is_err());
    assert_eq!(h.stream_position(), 0);
    assert_eq!(h.read_to_end().unwrap(), vec![0xffu8, 0x00u8]);
    assert_eq!(h.operation_count(), 2, "the failed decode still counts as one call");
}

#[test]
fn read_line_through_the_wrapper_goes_bad_on_invalid_text() {
    let b = Burrito::wrap(Ok(MemHandle::new(vec![0xffu8, b'\n'])));
    let b = b.read_line();
    assert!(b.is_bad());
    assert_eq!(b.to_data().unwrap_err().kind, ErrorKind::InvalidData);
}

#[test]
fn write_accepts_what_fits() {
    let h = MemHandle::with_limit(Vec::new(), 3);
    let b = Burrito::wrap(Ok(h)).write(b"hello");
    let (n, h) = b.ok().unwrap();
    assert_eq!(n, 3);
    assert_eq!(h.into_bytes(), b"hel".to_vec());
}

#[test]
fn write_overwrites_at_the_position() {
    let mut h = MemHandle::new(b"abcdef".to_vec());
    assert_eq!(h.seek(SeekFrom::Start(2)).unwrap(), 2);
    assert_eq!(h.write(b"XY").unwrap(), 2);
    assert_eq!(h.stream_position(), 4);
    assert_eq!(h.into_bytes(), b"abXYef".to_vec());
}

#[test]
fn write_all_atomic_under_failure() {
    // write_all on a handle that fails partway: Bad with the underlying
    // error, and nothing beyond the accepted prefix is claimed written.
    let mut h = MemHandle::with_limit(Vec::new(), 3);
    let e = h.write_all(b"hello").unwrap_err();
    assert_eq!(e.kind, ErrorKind::WriteZero);
    assert_eq!(h.stream_position(), 3);
    assert_eq!(h.into_bytes(), b"hel".to_vec());

    let h2 = MemHandle::with_limit(Vec::new(), 3);
    let b = Burrito::wrap(Ok(h2)).write_all(b"hello");
    let e2 = b.to_data().unwrap_err();
    assert_eq!(e2.kind, ErrorKind::WriteZero);
}

#[test]
fn write_all_within_capacity_writes_everything() {
    let b = Burrito::wrap(Ok(MemHandle::new(Vec::new()))).write_all(b"hello");
    let ((), h) = b.ok().unwrap();
    assert_eq!(h.into_bytes(), b"hello".to_vec());
}

#[test]
fn write_fmt_writes_the_encoded_text() {
    let b = Burrito::wrap(Ok(MemHandle::new(Vec::new())));
    let b = b.write_fmt(&format!("{} + {} = {}", 2, 2, 4));
    let ((), h) = b.ok().unwrap();
    assert_eq!(h.into_bytes(), b"2 + 2 = 4".to_vec());
}

#[test]
fn write_then_ignore_then_read() {
    // After write_all the value is unit; ignore keeps it unit; a read then
    // returns whatever bytes are available at the position -- here none,
    // since reads and writes share the position on this handle.
    let b = Burrito::wrap(Ok(MemHandle::new(Vec::new())));
    let b = b.write_all(b"hello").ignore();
    let b = b.read(5);
    assert!(b.is_good());
    assert_eq!(b.to_data().unwrap(), Vec::<u8>::new());

    // Seeking back makes the written bytes available again.
    let b = Burrito::wrap(Ok(MemHandle::new(Vec::new())));
    let b = b.write_all(b"hello").ignore().seek(SeekFrom::Start(0)).read(5);
    assert_eq!(b.to_data().unwrap(), b"hello".to_vec());
}

#[test]
fn seek_returns_the_absolute_offset() {
    let h = MemHandle::new(b"abcdef".to_vec());
    let b = Burrito::wrap(Ok(h)).seek(SeekFrom::End(-2));
    let (off, mut h) = b.ok().unwrap();
    assert_eq!(off, 4);
    assert_eq!(h.seek(SeekFrom::Current(-3)).unwrap(), 1);
    assert_eq!(h.seek(SeekFrom::Start(6)).unwrap(), 6);
}

#[test]
fn seek_outside_the_handle_is_refused() {
    let mut h = MemHandle::new(b"abc".to_vec());
    let e = h.seek(SeekFrom::Current(-1)).unwrap_err();
    assert_eq!(e.kind, ErrorKind::InvalidInput);
    let e = h.seek(SeekFrom::End(1)).unwrap_err();
    assert_eq!(e.kind, ErrorKind::InvalidInput);
    let e = h.seek(SeekFrom::Start(4)).unwrap_err();
    assert_eq!(e.kind, ErrorKind::InvalidInput);
    assert_eq!(h.stream_position(), 0);
}

#[test]
fn read_until_keeps_the_delimiter_and_stops_at_the_end() {
    // read_until(b'\n') on "abc\ndef": first call yields b"abc\n", a second
    // call against the remainder yields b"def" with no trailing delimiter;
    // both are Good -- end of input is not a failure.
    let b = Burrito::wrap(Ok(MemHandle::new(b"abc\ndef".to_vec())));
    let b = b.read_until(b'\n');
    let (first, h) = b.ok().unwrap();
    assert_eq!(first, b"abc\n".to_vec());

    let b = Burrito::wrap(Ok(h)).read_until(b'\n');
    assert!(b.is_good());
    assert_eq!(b.to_data().unwrap(), b"def".to_vec());
}

#[test]
fn read_line_keeps_the_line_feed() {
    let b = Burrito::wrap(Ok(MemHandle::new(b"hi\nyo".to_vec())));
    let b = b.read_line();
    let (line, h) = b.ok().unwrap();
    assert_eq!(line, "hi\n".to_string());
    assert_eq!(Burrito::wrap(Ok(h)).read_line().to_data().unwrap(), "yo".to_string());
}

#[test]
fn read_line_refuses_invalid_text_and_moves_nothing() {
    let mut h = MemHandle::new(vec![0xffu8, b'\n', b'o', b'k']);
    let e = h.read_line().unwrap_err();
    assert_eq!(e.kind, ErrorKind::InvalidData);
    assert_eq!(h.stream_position(), 0);
}

#[test]
fn fill_buf_and_consume() {
    let b = Burrito::wrap(Ok(MemHandle::new(b"abcdef".to_vec())));
    let b = b.fill_buf().consume(2).read(2);
    assert_eq!(b.to_data().unwrap(), b"cd".to_vec());

    // consuming past the end saturates at the end
    let mut h = MemHandle::new(b"ab".to_vec());
    h.consume(10);
    assert_eq!(h.stream_position(), 2);
}

#[test]
fn split_yields_chunks_without_the_delimiter() {
    let b = Burrito::wrap(Ok(MemHandle::new(b"a,b,,c".to_vec())));
    let mut split = b.split(b',').unwrap();
    assert_eq!(split.next_chunk().unwrap().unwrap(), b"a".to_vec());
    assert_eq!(split.next_chunk().unwrap().unwrap(), b"b".to_vec());
    assert_eq!(split.next_chunk().unwrap().unwrap(), Vec::<u8>::new());
    assert_eq!(split.next_chunk().unwrap().unwrap(), b"c".to_vec());
    assert!(split.next_chunk().is_none());
}

#[test]
fn split_on_a_bad_wrapper_returns_the_error() {
    let h = MemHandle::with_limit(Vec::new(), 0);
    let b = Burrito::wrap(Ok(h)).write_all(b"x");
    match b.split(b',') {
        Err(e) => assert_eq!(e.kind, ErrorKind::WriteZero),
        Ok(_) => panic!("expected the captured error"),
    }
}

#[test]
fn lines_strip_their_endings() {
    let b = Burrito::wrap(Ok(MemHandle::new(b"one\r\ntwo\nthree".to_vec())));
    let mut lines = b.lines().unwrap();
    assert_eq!(lines.next_line().unwrap().unwrap(), "one".to_string());
    assert_eq!(lines.next_line().unwrap().unwrap(), "two".to_string());
    assert_eq!(lines.next_line().unwrap().unwrap(), "three".to_string());
    assert!(lines.next_line().is_none());
}

#[test]
fn lines_surface_invalid_text_as_an_error() {
    let b = Burrito::wrap(Ok(MemHandle::new(vec![0xffu8, b'\n', b'o', b'k'])));
    let mut lines = b.lines().unwrap();
    let e = lines.next_line().unwrap().unwrap_err();
    assert_eq!(e.kind, ErrorKind::InvalidData);
    assert_eq!(lines.next_line().unwrap().unwrap(), "ok".to_string());
}

#[test]
fn every_operation_counts_once_on_the_handle() {
    let b = Burrito::wrap(Ok(MemHandle::new(b"ab\ncd\n".to_vec())));
    let b = b.read(1).fill_buf().consume(0).read_until(b'\n').read_line().seek(
        SeekFrom::Start(0),
    ).write(b"x").read_to_end();
    let h = b.to_handle().unwrap();
    assert_eq!(h.operation_count(), 8);
}
