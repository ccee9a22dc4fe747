use vstd::prelude::*;
use vstd::utf8::{valid_utf8, decode_utf8, encode_utf8};
use crate::caps::{BufReadable, bytes_to_string};
use crate::errors::{IoError, ErrorKind};

verus! {

/// What remains of a line once its ending is taken off: a trailing line feed
/// goes, and a carriage return just before it goes with it.
pub open spec fn strip_line_ending(bytes: Seq<u8>) -> Seq<u8> {
    if bytes.len() > 0 && bytes[bytes.len() - 1] == 10u8 {
        let b = bytes.drop_last();
        if b.len() > 0 && b[b.len() - 1] == 13u8 {
            b.drop_last()
        } else {
            b
        }
    } else {
        bytes
    }
}

/// A lazy, finite, forward-only, non-restartable sequence of byte chunks
/// split on a delimiter. Obtained from a good wrapper by the terminal
/// `split` operation; the chunks do not include the delimiter.
pub struct Split<T> {
    inner: T,
    delim: u8,
}

impl<T: BufReadable> Split<T> {
    /// The handle the scanner reads from.
    pub closed spec fn handle(self) -> T {
        self.inner
    }

    /// The delimiter the scanner splits on.
    pub closed spec fn delimiter(self) -> u8 {
        self.delim
    }

    /// Wraps a handle for scanning; nothing is read yet.
    pub fn new(inner: T, delim: u8) -> (s: Split<T>)
        ensures
            s.handle() == inner,
            s.delimiter() == delim,
    {
        Split { inner, delim }
    }

    /// The next chunk: the bytes up to the next delimiter, without the
    /// delimiter itself. `None` once the input is exhausted; end of input
    /// is not a failure. The chunk either was followed by the delimiter on
    /// the handle, or ran to the end of input.
    pub fn next_chunk(&mut self) -> (r: Option<Result<Vec<u8>, IoError>>)
        ensures
            final(self).delimiter() == old(self).delimiter(),
            (match r {
                None => T::read_until_ok(
                    old(self).handle(),
                    old(self).delimiter(),
                    Seq::<u8>::empty(),
                    final(self).handle(),
                ),
                Some(Err(e)) => T::read_until_err(
                    old(self).handle(),
                    old(self).delimiter(),
                    e,
                    final(self).handle(),
                ),
                Some(Ok(chunk)) => (chunk@.len() > 0 && T::read_until_ok(
                    old(self).handle(),
                    old(self).delimiter(),
                    chunk@,
                    final(self).handle(),
                )) || T::read_until_ok(
                    old(self).handle(),
                    old(self).delimiter(),
                    chunk@.push(old(self).delimiter()),
                    final(self).handle(),
                ),
            }),
    {
        let delim = self.delim;
        match self.inner.read_until(delim) {
            Err(e) => Some(Err(e)),
            Ok(mut buf) => {
                if buf.len() == 0 {
                    proof {
                        assert(buf@ =~= Seq::<u8>::empty());
                    }
                    None
                } else {
                    let ghost bytes0 = buf@;
                    if buf[buf.len() - 1] == delim {
                        buf.pop();
                        proof {
                            assert(bytes0 =~= buf@.push(delim));
                        }
                    }
                    Some(Ok(buf))
                }
            }
        }
    }
}

/// A lazy, finite, forward-only, non-restartable sequence of text lines.
/// Obtained from a good wrapper by the terminal `lines` operation; line
/// endings are not part of the lines.
pub struct Lines<T> {
    inner: T,
}

impl<T: BufReadable> Lines<T> {
    /// The handle the scanner reads from.
    pub closed spec fn handle(self) -> T {
        self.inner
    }

    /// Wraps a handle for scanning; nothing is read yet.
    pub fn new(inner: T) -> (s: Lines<T>)
        ensures
            s.handle() == inner,
    {
        Lines { inner }
    }

    /// The next line, without its ending. `None` once the input is
    /// exhausted; bytes that are not valid text are a failure. A returned
    /// line is exactly what stood on the handle before its line ending —
    /// a line feed, a carriage return and line feed, or the end of input.
    pub fn next_line(&mut self) -> (r: Option<Result<String, IoError>>)
        ensures
            (match r {
                None => T::read_until_ok(
                    old(self).handle(),
                    10u8,
                    Seq::<u8>::empty(),
                    final(self).handle(),
                ),
                Some(Err(e)) => T::read_until_err(old(self).handle(), 10u8, e, final(self).handle())
                    || (e.kind == ErrorKind::InvalidData && exists|bytes: Seq<u8>|
                        #[trigger] T::read_until_ok(old(self).handle(), 10u8, bytes, final(self).handle())
                            && !valid_utf8(strip_line_ending(bytes))),
                Some(Ok(line)) => valid_utf8(encode_utf8(line@)) && ((encode_utf8(line@).len() > 0
                    && T::read_until_ok(
                    old(self).handle(),
                    10u8,
                    encode_utf8(line@),
                    final(self).handle(),
                )) || T::read_until_ok(
                    old(self).handle(),
                    10u8,
                    encode_utf8(line@).push(10u8),
                    final(self).handle(),
                ) || T::read_until_ok(
                    old(self).handle(),
                    10u8,
                    encode_utf8(line@).push(13u8).push(10u8),
                    final(self).handle(),
                )),
            }),
    {
        match self.inner.read_until(10u8) {
            Err(e) => Some(Err(e)),
            Ok(mut buf) => {
                if buf.len() == 0 {
                    proof {
                        assert(buf@ =~= Seq::<u8>::empty());
                    }
                    None
                } else {
                    let ghost bytes0 = buf@;
                    if buf[buf.len() - 1] == 10u8 {
                        buf.pop();
                        if buf.len() > 0 && buf[buf.len() - 1] == 13u8 {
                            buf.pop();
                            proof {
                                assert(bytes0 =~= buf@.push(13u8).push(10u8));
                                assert(strip_line_ending(bytes0) =~= buf@);
                            }
                        } else {
                            proof {
                                assert(bytes0 =~= buf@.push(10u8));
                                assert(strip_line_ending(bytes0) =~= buf@);
                            }
                        }
                    } else {
                        proof {
                            assert(strip_line_ending(bytes0) =~= buf@);
                        }
                    }
                    let ghost sb = buf@;
                    match bytes_to_string(buf) {
                        Some(line) => {
                            proof {
                                broadcast use vstd::utf8::decode_utf8_encode_utf8;
                                assert(encode_utf8(line@) == sb);
                            }
                            Some(Ok(line))
                        }
                        None => Some(Err(IoError::new(
                            ErrorKind::InvalidData,
                            "stream did not contain valid UTF-8".to_owned(),
                        ))),
                    }
                }
            }
        }
    }
}

} // verus!
