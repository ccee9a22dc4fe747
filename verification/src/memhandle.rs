use vstd::prelude::*;
use vstd::math::{min, max};
use vstd::utf8::{valid_utf8, decode_utf8, encode_utf8};
use vstd::slice::{slice_to_vec, slice_subrange};
use vstd::string::StrSliceExecFns;
use crate::caps::{Readable, Writable, Seekable, BufReadable, SeekFrom, bytes_to_string};
use crate::errors::{IoError, ErrorKind};

verus! {

/// A call count one higher than `c`, except that it stays put at the top of
/// the counter's range instead of wrapping.
pub open spec fn next_count(c: int) -> int {
    if c >= u64::MAX {
        c
    } else {
        c + 1
    }
}

/// The bytes after `patch` is laid over `data` starting at `pos`: the part
/// before `pos` is kept, the patch follows, and whatever old bytes lie beyond
/// the patch are kept too.
pub open spec fn written(data: Seq<u8>, pos: int, patch: Seq<u8>) -> Seq<u8>
    recommends
        0 <= pos <= data.len(),
{
    data.take(pos) + patch + data.skip(min(pos + patch.len(), data.len() as int))
}

/// `bytes` is the chunk that a scan of `data` from `pos` up to and including
/// the first occurrence of `byte` yields: a prefix of the remainder in which
/// the delimiter occurs at most once, at the very end, and which runs to the
/// end of the data when the delimiter never occurs.
pub open spec fn chunk_at(data: Seq<u8>, pos: int, byte: u8, bytes: Seq<u8>) -> bool {
    &&& 0 <= pos
    &&& pos + bytes.len() <= data.len()
    &&& bytes == data.subrange(pos, pos + bytes.len())
    &&& forall|i: int| 0 <= i < bytes.len() - 1 ==> bytes[i] != byte
    &&& (pos + bytes.len() == data.len() || (bytes.len() > 0 && bytes[bytes.len() - 1] == byte))
}

/// The absolute position a seek aims at, relative to a handle of length
/// `len` currently positioned at `pos`.
pub open spec fn seek_target(len: int, pos: int, from: SeekFrom) -> int {
    match from {
        SeekFrom::Start(o) => o as int,
        SeekFrom::End(d) => len + d,
        SeekFrom::Current(d) => pos + d,
    }
}

/// An in-memory handle: a byte buffer with a position, usable wherever a
/// readable, writable, seekable or buffered-readable handle is asked for.
/// It counts every operation performed on it, and it can be given a
/// capacity so that writing past the capacity fails partway — which makes
/// the failure paths of a chain as observable as the good ones.
pub struct MemHandle {
    data: Vec<u8>,
    pos: usize,
    limit: usize,
    calls: u64,
}

impl MemHandle {
    /// The bytes the handle holds.
    pub closed spec fn bytes(self) -> Seq<u8> {
        self.data@
    }

    /// The current position, where the next read or write happens.
    pub closed spec fn position(self) -> int {
        self.pos as int
    }

    /// The most bytes the handle will ever hold; writes that would grow it
    /// further fail.
    pub closed spec fn capacity(self) -> int {
        self.limit as int
    }

    /// How many operations have been performed on the handle.
    pub closed spec fn count(self) -> int {
        self.calls as int
    }

    #[verifier::type_invariant]
    spec fn wf(self) -> bool {
        self.pos <= self.data.len() <= self.limit
    }

    /// A fresh handle over the given bytes, positioned at the start, with
    /// no bound on growth short of what the machine imposes.
    pub fn new(data: Vec<u8>) -> (h: MemHandle)
        ensures
            h.bytes() == data@,
            h.position() == 0,
            h.capacity() == usize::MAX,
            h.count() == 0,
    {
        MemHandle { data, pos: 0, limit: usize::MAX, calls: 0 }
    }

    /// A fresh handle over the given bytes that will never hold more than
    /// `limit` bytes — or than it holds already, where that is more.
    pub fn with_limit(data: Vec<u8>, limit: usize) -> (h: MemHandle)
        ensures
            h.bytes() == data@,
            h.position() == 0,
            h.capacity() == max(limit as int, data@.len() as int),
            h.count() == 0,
    {
        let cap = if limit >= data.len() {
            limit
        } else {
            data.len()
        };
        MemHandle { data, pos: 0, limit: cap, calls: 0 }
    }

    /// The current position.
    pub fn stream_position(&self) -> (p: usize)
        ensures
            p == self.position(),
    {
        self.pos
    }

    /// How many operations have been performed on the handle.
    pub fn operation_count(&self) -> (c: u64)
        ensures
            c as int == self.count(),
    {
        self.calls
    }

    /// Takes the handle apart, yielding the bytes it holds.
    pub fn into_bytes(self) -> (out: Vec<u8>)
        ensures
            out@ == self.bytes(),
    {
        self.data
    }

    /// Lays `k` bytes of `buf` over the buffer at the current position and
    /// moves the position past them. Shared engine of the write operations;
    /// the operation count is the callers' business.
    fn write_prefix(&mut self, buf: &[u8], k: usize)
        requires
            k <= buf@.len(),
            old(self).position() + k <= old(self).capacity(),
        ensures
            final(self).bytes() == written(old(self).bytes(), old(self).position(), buf@.take(
                k as int,
            )),
            final(self).position() == old(self).position() + k,
            final(self).capacity() == old(self).capacity(),
            final(self).count() == old(self).count(),
    {
        proof {
            use_type_invariant(&*self);
        }
        let len = self.data.len();
        let mut data2 = slice_to_vec(slice_subrange(self.data.as_slice(), 0, self.pos));
        let mut patch = slice_to_vec(slice_subrange(buf, 0, k));
        data2.append(&mut patch);
        if self.pos + k < len {
            let mut rest = slice_to_vec(slice_subrange(self.data.as_slice(), self.pos + k, len));
            data2.append(&mut rest);
            proof {
                assert(data2@ =~= written(self.data@, self.pos as int, buf@.take(k as int)));
            }
        } else {
            proof {
                assert(data2@ =~= written(self.data@, self.pos as int, buf@.take(k as int)));
            }
        }
        let new_pos = self.pos + k;
        self.data = data2;
        self.pos = new_pos;
    }

    /// Scans the buffer from the current position for `byte`; where the scan
    /// stops: just past the first occurrence, or at the end of the buffer.
    fn scan_to(&self, byte: u8) -> (stop: usize)
        ensures
            self.position() <= stop <= self.bytes().len(),
            chunk_at(self.bytes(), self.position(), byte, self.bytes().subrange(
                self.position(),
                stop as int,
            )),
    {
        proof {
            use_type_invariant(&*self);
        }
        let len = self.data.len();
        let mut end = self.pos;
        while end < len && self.data[end] != byte
            invariant
                self.pos <= end <= len,
                len == self.bytes().len(),
                self.pos <= self.bytes().len() <= self.limit,
                forall|i: int| self.position() <= i < end ==> self.bytes()[i] != byte,
            decreases len - end,
        {
            end = end + 1;
        }
        let stop = if end < len {
            end + 1
        } else {
            end
        };
        proof {
            let bytes = self.bytes().subrange(self.position(), stop as int);
            assert forall|i: int| 0 <= i < bytes.len() - 1 implies bytes[i] != byte by {
                assert(bytes[i] == self.bytes()[self.position() + i]);
            }
            if end < len {
                assert(bytes[bytes.len() - 1] == self.bytes()[end as int]);
            }
        }
        stop
    }
}

/// Law: a read asked for more than the handle has left yields exactly the
/// bytes that were available — a short read is success, not an error, and
/// nothing is padded onto it.
pub proof fn lemma_short_read(pre: MemHandle, n: usize, bytes: Seq<u8>, post: MemHandle)
    requires
        0 <= pre.position() <= pre.bytes().len(),
        pre.bytes().len() - pre.position() < n,
        MemHandle::read_ok(pre, n, bytes, post),
    ensures
        bytes.len() == pre.bytes().len() - pre.position(),
        bytes == pre.bytes().skip(pre.position()),
{
    assert(bytes =~= pre.bytes().skip(pre.position()));
}

/// Law: when `write_all` fails partway, the handle holds its old bytes up to
/// the position, then exactly the prefix of the buffer that fit — filled to
/// capacity and not a byte beyond it.
pub proof fn lemma_write_all_partial(pre: MemHandle, buf: Seq<u8>, e: IoError, post: MemHandle)
    requires
        0 <= pre.position() <= pre.bytes().len() <= pre.capacity(),
        MemHandle::write_all_err(pre, buf, e, post),
    ensures
        e.kind == ErrorKind::WriteZero,
        post.bytes() == pre.bytes().take(pre.position()) + buf.take(
            pre.capacity() - pre.position(),
        ),
        post.bytes().len() == pre.capacity(),
{
    let k = pre.capacity() - pre.position();
    assert(written(pre.bytes(), pre.position(), buf.take(k)) =~= pre.bytes().take(pre.position())
        + buf.take(k));
}

/// A call count one higher than `c`, saturating at the top of the range.
fn bumped(c: u64) -> (r: u64)
    ensures
        r as int == next_count(c as int),
{
    if c == u64::MAX {
        c
    } else {
        c + 1
    }
}

/// Reading an in-memory handle yields its bytes from the position on, and
/// never fails: a read past the end is simply short or empty. Decoding what
/// is left as text fails exactly when it is not valid UTF-8, and then moves
/// nothing.
impl Readable for MemHandle {
    open spec fn read_ok(pre: MemHandle, n: usize, bytes: Seq<u8>, post: MemHandle) -> bool {
        let k = min(n as int, pre.bytes().len() - pre.position());
        &&& bytes == pre.bytes().subrange(pre.position(), pre.position() + k)
        &&& post.bytes() == pre.bytes()
        &&& post.position() == pre.position() + k
        &&& post.capacity() == pre.capacity()
        &&& post.count() == next_count(pre.count())
    }

    open spec fn read_err(pre: MemHandle, n: usize, e: IoError, post: MemHandle) -> bool {
        false
    }

    open spec fn read_to_end_ok(pre: MemHandle, bytes: Seq<u8>, post: MemHandle) -> bool {
        &&& bytes == pre.bytes().skip(pre.position())
        &&& post.bytes() == pre.bytes()
        &&& post.position() == pre.bytes().len()
        &&& post.capacity() == pre.capacity()
        &&& post.count() == next_count(pre.count())
    }

    open spec fn read_to_end_err(pre: MemHandle, e: IoError, post: MemHandle) -> bool {
        false
    }

    open spec fn read_to_string_ok(pre: MemHandle, text: Seq<char>, post: MemHandle) -> bool {
        &&& valid_utf8(pre.bytes().skip(pre.position()))
        &&& text == decode_utf8(pre.bytes().skip(pre.position()))
        &&& post.bytes() == pre.bytes()
        &&& post.position() == pre.bytes().len()
        &&& post.capacity() == pre.capacity()
        &&& post.count() == next_count(pre.count())
    }

    open spec fn read_to_string_err(pre: MemHandle, e: IoError, post: MemHandle) -> bool {
        &&& !valid_utf8(pre.bytes().skip(pre.position()))
        &&& e.kind == ErrorKind::InvalidData
        &&& post.bytes() == pre.bytes()
        &&& post.position() == pre.position()
        &&& post.capacity() == pre.capacity()
        &&& post.count() == next_count(pre.count())
    }

    fn read(&mut self, n: usize) -> (r: Result<Vec<u8>, IoError>) {
        proof {
            use_type_invariant(&*self);
        }
        let avail = self.data.len() - self.pos;
        let k = if n < avail {
            n
        } else {
            avail
        };
        let out = slice_to_vec(slice_subrange(self.data.as_slice(), self.pos, self.pos + k));
        self.pos = self.pos + k;
        self.calls = bumped(self.calls);
        Ok(out)
    }

    fn read_to_end(&mut self) -> (r: Result<Vec<u8>, IoError>) {
        proof {
            use_type_invariant(&*self);
        }
        let len = self.data.len();
        let out = slice_to_vec(slice_subrange(self.data.as_slice(), self.pos, len));
        proof {
            assert(out@ =~= self.bytes().skip(self.position()));
        }
        self.pos = len;
        self.calls = bumped(self.calls);
        Ok(out)
    }

    fn read_to_string(&mut self) -> (r: Result<String, IoError>) {
        proof {
            use_type_invariant(&*self);
        }
        let len = self.data.len();
        let rem = slice_to_vec(slice_subrange(self.data.as_slice(), self.pos, len));
        proof {
            assert(rem@ =~= self.bytes().skip(self.position()));
        }
        match bytes_to_string(rem) {
            Some(text) => {
                self.pos = len;
                self.calls = bumped(self.calls);
                Ok(text)
            }
            None => {
                self.calls = bumped(self.calls);
                Err(IoError::new(
                    ErrorKind::InvalidData,
                    "stream did not contain valid UTF-8".to_owned(),
                ))
            }
        }
    }
}

/// Writing an in-memory handle lays the bytes over the buffer at the
/// position, growing it as far as the capacity allows. A plain `write`
/// accepts what fits — possibly nothing — and never fails; `write_all`
/// fails once the buffer is about to overflow, with exactly the fitting
/// prefix accepted.
impl Writable for MemHandle {
    open spec fn write_ok(pre: MemHandle, buf: Seq<u8>, n: usize, post: MemHandle) -> bool {
        let k = min(buf.len() as int, pre.capacity() - pre.position());
        &&& n == k
        &&& post.bytes() == written(pre.bytes(), pre.position(), buf.take(k))
        &&& post.position() == pre.position() + k
        &&& post.capacity() == pre.capacity()
        &&& post.count() == next_count(pre.count())
    }

    open spec fn write_err(pre: MemHandle, buf: Seq<u8>, e: IoError, post: MemHandle) -> bool {
        false
    }

    open spec fn write_all_ok(pre: MemHandle, buf: Seq<u8>, post: MemHandle) -> bool {
        &&& buf.len() <= pre.capacity() - pre.position()
        &&& post.bytes() == written(pre.bytes(), pre.position(), buf)
        &&& post.position() == pre.position() + buf.len()
        &&& post.capacity() == pre.capacity()
        &&& post.count() == next_count(pre.count())
    }

    open spec fn write_all_err(pre: MemHandle, buf: Seq<u8>, e: IoError, post: MemHandle) -> bool {
        let k = pre.capacity() - pre.position();
        &&& buf.len() > k
        &&& e.kind == ErrorKind::WriteZero
        &&& post.bytes() == written(pre.bytes(), pre.position(), buf.take(k))
        &&& post.position() == pre.capacity()
        &&& post.capacity() == pre.capacity()
        &&& post.count() == next_count(pre.count())
    }

    open spec fn write_fmt_ok(pre: MemHandle, text: Seq<char>, post: MemHandle) -> bool {
        <MemHandle as Writable>::write_all_ok(pre, encode_utf8(text), post)
    }

    open spec fn write_fmt_err(pre: MemHandle, text: Seq<char>, e: IoError, post: MemHandle) -> bool {
        <MemHandle as Writable>::write_all_err(pre, encode_utf8(text), e, post)
    }

    fn write(&mut self, buf: &[u8]) -> (r: Result<usize, IoError>) {
        proof {
            use_type_invariant(&*self);
        }
        let room = self.limit - self.pos;
        let k = if buf.len() < room {
            buf.len()
        } else {
            room
        };
        self.write_prefix(buf, k);
        self.calls = bumped(self.calls);
        Ok(k)
    }

    fn write_all(&mut self, buf: &[u8]) -> (r: Result<(), IoError>) {
        proof {
            use_type_invariant(&*self);
        }
        let room = self.limit - self.pos;
        if buf.len() <= room {
            self.write_prefix(buf, buf.len());
            self.calls = bumped(self.calls);
            proof {
                assert(buf@.take(buf@.len() as int) =~= buf@);
            }
            Ok(())
        } else {
            self.write_prefix(buf, room);
            self.calls = bumped(self.calls);
            Err(IoError::new(ErrorKind::WriteZero, "failed to write whole buffer".to_owned()))
        }
    }

    fn write_fmt(&mut self, text: &str) -> (r: Result<(), IoError>) {
        let bytes = text.as_bytes_vec();
        self.write_all(bytes.as_slice())
    }
}

/// Seeking an in-memory handle moves its position anywhere inside the bytes
/// it holds; aiming before the start or past the end is refused and moves
/// nothing.
impl Seekable for MemHandle {
    open spec fn seek_ok(pre: MemHandle, pos: SeekFrom, offset: u64, post: MemHandle) -> bool {
        let t = seek_target(pre.bytes().len() as int, pre.position(), pos);
        &&& 0 <= t <= pre.bytes().len()
        &&& offset == t
        &&& post.bytes() == pre.bytes()
        &&& post.position() == t
        &&& post.capacity() == pre.capacity()
        &&& post.count() == next_count(pre.count())
    }

    open spec fn seek_err(pre: MemHandle, pos: SeekFrom, e: IoError, post: MemHandle) -> bool {
        let t = seek_target(pre.bytes().len() as int, pre.position(), pos);
        &&& (t < 0 || t > pre.bytes().len())
        &&& e.kind == ErrorKind::InvalidInput
        &&& post.bytes() == pre.bytes()
        &&& post.position() == pre.position()
        &&& post.capacity() == pre.capacity()
        &&& post.count() == next_count(pre.count())
    }

    fn seek(&mut self, pos: SeekFrom) -> (r: Result<u64, IoError>) {
        proof {
            use_type_invariant(&*self);
        }
        let len = self.data.len();
        let target: i128 = match pos {
            SeekFrom::Start(o) => o as i128,
            SeekFrom::End(d) => len as i128 + d as i128,
            SeekFrom::Current(d) => self.pos as i128 + d as i128,
        };
        if 0 <= target && target <= len as i128 {
            let t = target as usize;
            self.pos = t;
            self.calls = bumped(self.calls);
            Ok(t as u64)
        } else {
            self.calls = bumped(self.calls);
            Err(IoError::new(
                ErrorKind::InvalidInput,
                "invalid seek to a position outside the handle".to_owned(),
            ))
        }
    }
}

/// An in-memory handle buffers trivially: everything from the position on is
/// the buffer, so filling it is a counted no-op that cannot fail, consuming
/// advances the position and saturates at the end, and scans stop at the
/// delimiter without touching what lies beyond it.
impl BufReadable for MemHandle {
    open spec fn fill_buf_ok(pre: MemHandle, post: MemHandle) -> bool {
        &&& post.bytes() == pre.bytes()
        &&& post.position() == pre.position()
        &&& post.capacity() == pre.capacity()
        &&& post.count() == next_count(pre.count())
    }

    open spec fn fill_buf_err(pre: MemHandle, e: IoError, post: MemHandle) -> bool {
        false
    }

    open spec fn consume_ok(pre: MemHandle, amt: usize, post: MemHandle) -> bool {
        &&& post.bytes() == pre.bytes()
        &&& post.position() == min(pre.position() + amt, pre.bytes().len() as int)
        &&& post.capacity() == pre.capacity()
        &&& post.count() == next_count(pre.count())
    }

    open spec fn read_until_ok(pre: MemHandle, byte: u8, bytes: Seq<u8>, post: MemHandle) -> bool {
        &&& chunk_at(pre.bytes(), pre.position(), byte, bytes)
        &&& post.bytes() == pre.bytes()
        &&& post.position() == pre.position() + bytes.len()
        &&& post.capacity() == pre.capacity()
        &&& post.count() == next_count(pre.count())
    }

    open spec fn read_until_err(pre: MemHandle, byte: u8, e: IoError, post: MemHandle) -> bool {
        false
    }

    open spec fn read_line_ok(pre: MemHandle, text: Seq<char>, post: MemHandle) -> bool {
        let bytes = pre.bytes().subrange(pre.position(), post.position());
        &&& pre.position() <= post.position() <= pre.bytes().len()
        &&& chunk_at(pre.bytes(), pre.position(), 10u8, bytes)
        &&& valid_utf8(bytes)
        &&& text == decode_utf8(bytes)
        &&& post.bytes() == pre.bytes()
        &&& post.capacity() == pre.capacity()
        &&& post.count() == next_count(pre.count())
    }

    open spec fn read_line_err(pre: MemHandle, e: IoError, post: MemHandle) -> bool {
        &&& e.kind == ErrorKind::InvalidData
        &&& post.bytes() == pre.bytes()
        &&& post.position() == pre.position()
        &&& post.capacity() == pre.capacity()
        &&& post.count() == next_count(pre.count())
        &&& exists|bytes: Seq<u8>|
            #[trigger] chunk_at(pre.bytes(), pre.position(), 10u8, bytes) && !valid_utf8(bytes)
    }

    fn fill_buf(&mut self) -> (r: Result<(), IoError>) {
        proof {
            use_type_invariant(&*self);
        }
        self.calls = bumped(self.calls);
        Ok(())
    }

    fn consume(&mut self, amt: usize) {
        proof {
            use_type_invariant(&*self);
        }
        let rem = self.data.len() - self.pos;
        let a = if amt < rem {
            amt
        } else {
            rem
        };
        self.pos = self.pos + a;
        self.calls = bumped(self.calls);
    }

    fn read_until(&mut self, byte: u8) -> (r: Result<Vec<u8>, IoError>) {
        proof {
            use_type_invariant(&*self);
        }
        let stop = self.scan_to(byte);
        let out = slice_to_vec(slice_subrange(self.data.as_slice(), self.pos, stop));
        self.pos = stop;
        self.calls = bumped(self.calls);
        Ok(out)
    }

    fn read_line(&mut self) -> (r: Result<String, IoError>) {
        proof {
            use_type_invariant(&*self);
        }
        let stop = self.scan_to(10u8);
        let chunk = slice_to_vec(slice_subrange(self.data.as_slice(), self.pos, stop));
        let ghost bytes0 = chunk@;
        match bytes_to_string(chunk) {
            Some(text) => {
                self.pos = stop;
                self.calls = bumped(self.calls);
                Ok(text)
            }
            None => {
                self.calls = bumped(self.calls);
                proof {
                    assert(chunk_at(self.bytes(), self.position(), 10u8, bytes0)
                        && !valid_utf8(bytes0));
                }
                Err(IoError::new(
                    ErrorKind::InvalidData,
                    "stream did not contain valid UTF-8".to_owned(),
                ))
            }
        }
    }
}

} // verus!
