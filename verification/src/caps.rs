use vstd::prelude::*;
use crate::errors::IoError;

verus! {

/// Where a seek starts from: the beginning of the handle, its end, or the
/// current position. The offset relative to end or current may be negative.
#[derive(Clone, Copy, Debug, PartialEq, Eq, Structural)]
pub enum SeekFrom {
    Start(u64),
    End(i64),
    Current(i64),
}

/// A handle that bytes can be read from.
///
/// Each operation comes with two abstract predicates that the implementing
/// type fills in: one saying what a successful call did to the handle and
/// what it returned, one saying the same of a failing call. A handle backed
/// by process-wide streams states `true` for both (nothing is promised of
/// the outside world); an in-memory handle pins both down exactly. Generic
/// code is verified against whatever the handle type states.
pub trait Readable: Sized {
    /// What a successful `read` of at most `n` bytes means for this handle.
    spec fn read_ok(pre: Self, n: usize, bytes: Seq<u8>, post: Self) -> bool;

    /// What a failing `read` means for this handle.
    spec fn read_err(pre: Self, n: usize, e: IoError, post: Self) -> bool;

    /// What a successful `read_to_end` means for this handle.
    spec fn read_to_end_ok(pre: Self, bytes: Seq<u8>, post: Self) -> bool;

    /// What a failing `read_to_end` means for this handle.
    spec fn read_to_end_err(pre: Self, e: IoError, post: Self) -> bool;

    /// What a successful `read_to_string` means for this handle.
    spec fn read_to_string_ok(pre: Self, text: Seq<char>, post: Self) -> bool;

    /// What a failing `read_to_string` means for this handle.
    spec fn read_to_string_err(pre: Self, e: IoError, post: Self) -> bool;

    /// One read call: returns at most `n` bytes. Fewer bytes than `n` —
    /// a short read — is success, not failure.
    fn read(&mut self, n: usize) -> (r: Result<Vec<u8>, IoError>)
        ensures
            (match r {
                Ok(bytes) => bytes@.len() <= n && Self::read_ok(*old(self), n, bytes@, *final(self)),
                Err(e) => Self::read_err(*old(self), n, e, *final(self)),
            }),
    ;

    /// Reads until the handle is exhausted; returns everything read.
    fn read_to_end(&mut self) -> (r: Result<Vec<u8>, IoError>)
        ensures
            (match r {
                Ok(bytes) => Self::read_to_end_ok(*old(self), bytes@, *final(self)),
                Err(e) => Self::read_to_end_err(*old(self), e, *final(self)),
            }),
    ;

    /// Reads until the handle is exhausted and decodes the bytes as text;
    /// bytes that are not valid text are a failure.
    fn read_to_string(&mut self) -> (r: Result<String, IoError>)
        ensures
            (match r {
                Ok(text) => Self::read_to_string_ok(*old(self), text@, *final(self)),
                Err(e) => Self::read_to_string_err(*old(self), e, *final(self)),
            }),
    ;
}

/// A handle that bytes can be written to.
pub trait Writable: Sized {
    /// What a successful `write` that accepted `n` bytes means for this handle.
    spec fn write_ok(pre: Self, buf: Seq<u8>, n: usize, post: Self) -> bool;

    /// What a failing `write` means for this handle.
    spec fn write_err(pre: Self, buf: Seq<u8>, e: IoError, post: Self) -> bool;

    /// What a successful `write_all` means for this handle.
    spec fn write_all_ok(pre: Self, buf: Seq<u8>, post: Self) -> bool;

    /// What a failing `write_all` means for this handle.
    spec fn write_all_err(pre: Self, buf: Seq<u8>, e: IoError, post: Self) -> bool;

    /// What a successful `write_fmt` of pre-formatted text means.
    spec fn write_fmt_ok(pre: Self, text: Seq<char>, post: Self) -> bool;

    /// What a failing `write_fmt` of pre-formatted text means.
    spec fn write_fmt_err(pre: Self, text: Seq<char>, e: IoError, post: Self) -> bool;

    /// One write call: returns how many bytes were accepted, possibly fewer
    /// than the buffer holds.
    fn write(&mut self, buf: &[u8]) -> (r: Result<usize, IoError>)
        ensures
            (match r {
                Ok(n) => n <= buf@.len() && Self::write_ok(*old(self), buf@, n, *final(self)),
                Err(e) => Self::write_err(*old(self), buf@, e, *final(self)),
            }),
    ;

    /// Writes the whole buffer, or fails; on failure a prefix of the buffer
    /// may already have been accepted by the handle, and nothing beyond that
    /// prefix is claimed written.
    fn write_all(&mut self, buf: &[u8]) -> (r: Result<(), IoError>)
        ensures
            (match r {
                Ok(u) => Self::write_all_ok(*old(self), buf@, *final(self)),
                Err(e) => Self::write_all_err(*old(self), buf@, e, *final(self)),
            }),
    ;

    /// Writes pre-formatted text in whole.
    fn write_fmt(&mut self, text: &str) -> (r: Result<(), IoError>)
        ensures
            (match r {
                Ok(u) => Self::write_fmt_ok(*old(self), text@, *final(self)),
                Err(e) => Self::write_fmt_err(*old(self), text@, e, *final(self)),
            }),
    ;
}

/// A handle whose position can be moved.
pub trait Seekable: Sized {
    /// What a successful seek to absolute offset `offset` means.
    spec fn seek_ok(pre: Self, pos: SeekFrom, offset: u64, post: Self) -> bool;

    /// What a failing seek means.
    spec fn seek_err(pre: Self, pos: SeekFrom, e: IoError, post: Self) -> bool;

    /// Repositions the handle; returns the resulting absolute offset.
    fn seek(&mut self, pos: SeekFrom) -> (r: Result<u64, IoError>)
        ensures
            (match r {
                Ok(offset) => Self::seek_ok(*old(self), pos, offset, *final(self)),
                Err(e) => Self::seek_err(*old(self), pos, e, *final(self)),
            }),
    ;
}

/// A handle that buffers its input, so that it can be scanned up to a
/// delimiter without reading past it.
pub trait BufReadable: Readable {
    /// What successfully filling the internal buffer means.
    spec fn fill_buf_ok(pre: Self, post: Self) -> bool;

    /// What a failure to fill the internal buffer means.
    spec fn fill_buf_err(pre: Self, e: IoError, post: Self) -> bool;

    /// What consuming `amt` buffered bytes means. Consuming cannot fail.
    spec fn consume_ok(pre: Self, amt: usize, post: Self) -> bool;

    /// What a successful `read_until` means: `bytes` runs up to and including
    /// the first occurrence of the delimiter, or to the end of input.
    spec fn read_until_ok(pre: Self, byte: u8, bytes: Seq<u8>, post: Self) -> bool;

    /// What a failing `read_until` means.
    spec fn read_until_err(pre: Self, byte: u8, e: IoError, post: Self) -> bool;

    /// What a successful `read_line` means.
    spec fn read_line_ok(pre: Self, text: Seq<char>, post: Self) -> bool;

    /// What a failing `read_line` means.
    spec fn read_line_err(pre: Self, e: IoError, post: Self) -> bool;

    /// Ensures the internal buffer is non-empty or the input is exhausted.
    /// The buffered bytes themselves are not exposed by this call.
    fn fill_buf(&mut self) -> (r: Result<(), IoError>)
        ensures
            (match r {
                Ok(u) => Self::fill_buf_ok(*old(self), *final(self)),
                Err(e) => Self::fill_buf_err(*old(self), e, *final(self)),
            }),
    ;

    /// Marks `amt` buffered bytes as consumed. No underlying I/O call is
    /// made and no failure is possible.
    fn consume(&mut self, amt: usize)
        ensures
            Self::consume_ok(*old(self), amt, *final(self)),
    ;

    /// Reads up to and including the first occurrence of `byte`, or to the
    /// end of input. End of input is not a failure.
    fn read_until(&mut self, byte: u8) -> (r: Result<Vec<u8>, IoError>)
        ensures
            (match r {
                Ok(bytes) => Self::read_until_ok(*old(self), byte, bytes@, *final(self)),
                Err(e) => Self::read_until_err(*old(self), byte, e, *final(self)),
            }),
    ;

    /// Reads up to and including the first line feed, decoded as text.
    fn read_line(&mut self) -> (r: Result<String, IoError>)
        ensures
            (match r {
                Ok(text) => Self::read_line_ok(*old(self), text@, *final(self)),
                Err(e) => Self::read_line_err(*old(self), e, *final(self)),
            }),
    ;
}

/// Relies on String::from_utf8: it succeeds exactly when the bytes are valid
/// UTF-8, and then returns the text those bytes encode.
#[verifier::external_body]
pub fn bytes_to_string(v: Vec<u8>) -> (r: Option<String>)
    ensures
        (match r {
            Some(s) => vstd::utf8::valid_utf8(v@) && s@ == vstd::utf8::decode_utf8(v@),
            None => !vstd::utf8::valid_utf8(v@),
        }),
{
    String::from_utf8(v).ok()
}

} // verus!
