use vstd::prelude::*;
use crate::caps::{Readable, Writable, Seekable, BufReadable, SeekFrom};
use crate::errors::IoError;

verus! {

/// The two states a wrapped handle can be in: `Good` carries the value the
/// last operation produced together with the live handle; `Bad` carries the
/// captured failure, the handle having been dropped. There is no third state.
pub enum Io<A, T> {
    Good(A, T),
    Bad(IoError),
}

/// The state `wrap` produces from the result of constructing a handle.
pub open spec fn wrap_result<T>(inner: Result<T, IoError>) -> Io<(), T> {
    match inner {
        Ok(h) => Io::Good((), h),
        Err(e) => Io::Bad(e),
    }
}

impl<A, T: Readable> Io<A, T> {
    /// One read of at most `n` bytes on a good handle; a bad state
    /// propagates untouched, and no read is attempted.
    pub fn read(self, n: usize) -> (r: Io<Vec<u8>, T>)
        ensures
            (match self {
                Io::Bad(e) => r == Io::<Vec<u8>, T>::Bad(e),
                Io::Good(_, h) => match r {
                    Io::Good(bytes, h2) => bytes@.len() <= n && T::read_ok(h, n, bytes@, h2),
                    Io::Bad(e) => exists|h2: T| T::read_err(h, n, e, h2),
                },
            }),
    {
        match self {
            Io::Good(_, mut h) => {
                let ghost h0 = h;
                match h.read(n) {
                    Ok(bytes) => Io::Good(bytes, h),
                    Err(e) => {
                        proof {
                            assert(T::read_err(h0, n, e, h));
                        }
                        Io::Bad(e)
                    }
                }
            }
            Io::Bad(e) => Io::Bad(e),
        }
    }

    /// Reads everything left on a good handle; a bad state propagates.
    pub fn read_to_end(self) -> (r: Io<Vec<u8>, T>)
        ensures
            (match self {
                Io::Bad(e) => r == Io::<Vec<u8>, T>::Bad(e),
                Io::Good(_, h) => match r {
                    Io::Good(bytes, h2) => T::read_to_end_ok(h, bytes@, h2),
                    Io::Bad(e) => exists|h2: T| T::read_to_end_err(h, e, h2),
                },
            }),
    {
        match self {
            Io::Good(_, mut h) => {
                let ghost h0 = h;
                match h.read_to_end() {
                    Ok(bytes) => Io::Good(bytes, h),
                    Err(e) => {
                        proof {
                            assert(T::read_to_end_err(h0, e, h));
                        }
                        Io::Bad(e)
                    }
                }
            }
            Io::Bad(e) => Io::Bad(e),
        }
    }

    /// Reads everything left on a good handle, decoded as text; a bad state
    /// propagates.
    pub fn read_to_string(self) -> (r: Io<String, T>)
        ensures
            (match self {
                Io::Bad(e) => r == Io::<String, T>::Bad(e),
                Io::Good(_, h) => match r {
                    Io::Good(text, h2) => T::read_to_string_ok(h, text@, h2),
                    Io::Bad(e) => exists|h2: T| T::read_to_string_err(h, e, h2),
                },
            }),
    {
        match self {
            Io::Good(_, mut h) => {
                let ghost h0 = h;
                match h.read_to_string() {
                    Ok(text) => Io::Good(text, h),
                    Err(e) => {
                        proof {
                            assert(T::read_to_string_err(h0, e, h));
                        }
                        Io::Bad(e)
                    }
                }
            }
            Io::Bad(e) => Io::Bad(e),
        }
    }
}

impl<A, T: Writable> Io<A, T> {
    /// One write on a good handle; returns how many bytes were accepted.
    /// A bad state propagates and nothing is written.
    pub fn write(self, buf: &[u8]) -> (r: Io<usize, T>)
        ensures
            (match self {
                Io::Bad(e) => r == Io::<usize, T>::Bad(e),
                Io::Good(_, h) => match r {
                    Io::Good(n, h2) => n <= buf@.len() && T::write_ok(h, buf@, n, h2),
                    Io::Bad(e) => exists|h2: T| T::write_err(h, buf@, e, h2),
                },
            }),
    {
        match self {
            Io::Good(_, mut h) => {
                let ghost h0 = h;
                match h.write(buf) {
                    Ok(n) => Io::Good(n, h),
                    Err(e) => {
                        proof {
                            assert(T::write_err(h0, buf@, e, h));
                        }
                        Io::Bad(e)
                    }
                }
            }
            Io::Bad(e) => Io::Bad(e),
        }
    }

    /// Writes the whole buffer on a good handle, or goes bad with the
    /// underlying error; nothing beyond the prefix the handle accepted is
    /// claimed written. A bad state propagates and nothing is written.
    pub fn write_all(self, buf: &[u8]) -> (r: Io<(), T>)
        ensures
            (match self {
                Io::Bad(e) => r == Io::<(), T>::Bad(e),
                Io::Good(_, h) => match r {
                    Io::Good(u, h2) => T::write_all_ok(h, buf@, h2),
                    Io::Bad(e) => exists|h2: T| T::write_all_err(h, buf@, e, h2),
                },
            }),
    {
        match self {
            Io::Good(_, mut h) => {
                let ghost h0 = h;
                match h.write_all(buf) {
                    Ok(_) => Io::Good((), h),
                    Err(e) => {
                        proof {
                            assert(T::write_all_err(h0, buf@, e, h));
                        }
                        Io::Bad(e)
                    }
                }
            }
            Io::Bad(e) => Io::Bad(e),
        }
    }

    /// Writes pre-formatted text on a good handle; a bad state propagates.
    pub fn write_fmt(self, text: &str) -> (r: Io<(), T>)
        ensures
            (match self {
                Io::Bad(e) => r == Io::<(), T>::Bad(e),
                Io::Good(_, h) => match r {
                    Io::Good(u, h2) => T::write_fmt_ok(h, text@, h2),
                    Io::Bad(e) => exists|h2: T| T::write_fmt_err(h, text@, e, h2),
                },
            }),
    {
        match self {
            Io::Good(_, mut h) => {
                let ghost h0 = h;
                match h.write_fmt(text) {
                    Ok(_) => Io::Good((), h),
                    Err(e) => {
                        proof {
                            assert(T::write_fmt_err(h0, text@, e, h));
                        }
                        Io::Bad(e)
                    }
                }
            }
            Io::Bad(e) => Io::Bad(e),
        }
    }
}

impl<A, T: Seekable> Io<A, T> {
    /// Repositions a good handle and carries the resulting offset; a bad
    /// state propagates.
    pub fn seek(self, pos: SeekFrom) -> (r: Io<u64, T>)
        ensures
            (match self {
                Io::Bad(e) => r == Io::<u64, T>::Bad(e),
                Io::Good(_, h) => match r {
                    Io::Good(offset, h2) => T::seek_ok(h, pos, offset, h2),
                    Io::Bad(e) => exists|h2: T| T::seek_err(h, pos, e, h2),
                },
            }),
    {
        match self {
            Io::Good(_, mut h) => {
                let ghost h0 = h;
                match h.seek(pos) {
                    Ok(offset) => Io::Good(offset, h),
                    Err(e) => {
                        proof {
                            assert(T::seek_err(h0, pos, e, h));
                        }
                        Io::Bad(e)
                    }
                }
            }
            Io::Bad(e) => Io::Bad(e),
        }
    }
}

impl<A, T: BufReadable> Io<A, T> {
    /// Fills the internal buffer of a good handle; a bad state propagates.
    pub fn fill_buf(self) -> (r: Io<(), T>)
        ensures
            (match self {
                Io::Bad(e) => r == Io::<(), T>::Bad(e),
                Io::Good(_, h) => match r {
                    Io::Good(u, h2) => T::fill_buf_ok(h, h2),
                    Io::Bad(e) => exists|h2: T| T::fill_buf_err(h, e, h2),
                },
            }),
    {
        match self {
            Io::Good(_, mut h) => {
                let ghost h0 = h;
                match h.fill_buf() {
                    Ok(_) => Io::Good((), h),
                    Err(e) => {
                        proof {
                            assert(T::fill_buf_err(h0, e, h));
                        }
                        Io::Bad(e)
                    }
                }
            }
            Io::Bad(e) => Io::Bad(e),
        }
    }

    /// Marks `amt` buffered bytes of a good handle as consumed; cannot fail.
    /// A bad state propagates.
    pub fn consume(self, amt: usize) -> (r: Io<(), T>)
        ensures
            (match self {
                Io::Bad(e) => r == Io::<(), T>::Bad(e),
                Io::Good(_, h) => match r {
                    Io::Good(u, h2) => T::consume_ok(h, amt, h2),
                    Io::Bad(e) => false,
                },
            }),
    {
        match self {
            Io::Good(_, mut h) => {
                h.consume(amt);
                Io::Good((), h)
            }
            Io::Bad(e) => Io::Bad(e),
        }
    }

    /// Reads up to and including the first occurrence of `byte` on a good
    /// handle; end of input is not a failure. A bad state propagates.
    pub fn read_until(self, byte: u8) -> (r: Io<Vec<u8>, T>)
        ensures
            (match self {
                Io::Bad(e) => r == Io::<Vec<u8>, T>::Bad(e),
                Io::Good(_, h) => match r {
                    Io::Good(bytes, h2) => T::read_until_ok(h, byte, bytes@, h2),
                    Io::Bad(e) => exists|h2: T| T::read_until_err(h, byte, e, h2),
                },
            }),
    {
        match self {
            Io::Good(_, mut h) => {
                let ghost h0 = h;
                match h.read_until(byte) {
                    Ok(bytes) => Io::Good(bytes, h),
                    Err(e) => {
                        proof {
                            assert(T::read_until_err(h0, byte, e, h));
                        }
                        Io::Bad(e)
                    }
                }
            }
            Io::Bad(e) => Io::Bad(e),
        }
    }

    /// Reads one line of text from a good handle; a bad state propagates.
    pub fn read_line(self) -> (r: Io<String, T>)
        ensures
            (match self {
                Io::Bad(e) => r == Io::<String, T>::Bad(e),
                Io::Good(_, h) => match r {
                    Io::Good(text, h2) => T::read_line_ok(h, text@, h2),
                    Io::Bad(e) => exists|h2: T| T::read_line_err(h, e, h2),
                },
            }),
    {
        match self {
            Io::Good(_, mut h) => {
                let ghost h0 = h;
                match h.read_line() {
                    Ok(text) => Io::Good(text, h),
                    Err(e) => {
                        proof {
                            assert(T::read_line_err(h0, e, h));
                        }
                        Io::Bad(e)
                    }
                }
            }
            Io::Bad(e) => Io::Bad(e),
        }
    }

    /// Terminal: hands the handle over to a byte-chunk scanner split on
    /// `byte`, or returns the captured error of a bad state.
    pub fn split(self, byte: u8) -> (r: Result<crate::chunks::Split<T>, IoError>)
        ensures
            (match self {
                Io::Bad(e) => r == Err::<crate::chunks::Split<T>, IoError>(e),
                Io::Good(_, h) => match r {
                    Ok(s) => s.handle() == h && s.delimiter() == byte,
                    Err(_) => false,
                },
            }),
    {
        match self {
            Io::Good(_, h) => Ok(crate::chunks::Split::new(h, byte)),
            Io::Bad(e) => Err(e),
        }
    }

    /// Terminal: hands the handle over to a line scanner, or returns the
    /// captured error of a bad state.
    pub fn lines(self) -> (r: Result<crate::chunks::Lines<T>, IoError>)
        ensures
            (match self {
                Io::Bad(e) => r == Err::<crate::chunks::Lines<T>, IoError>(e),
                Io::Good(_, h) => match r {
                    Ok(s) => s.handle() == h,
                    Err(_) => false,
                },
            }),
    {
        match self {
            Io::Good(_, h) => Ok(crate::chunks::Lines::new(h)),
            Io::Bad(e) => Err(e),
        }
    }
}

} // verus!
