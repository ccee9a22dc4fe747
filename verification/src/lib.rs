//! A chainable, failure-propagating wrapper around basic I/O handles.
//!
//! A `Burrito` wraps one I/O handle and lets a caller compose a sequence of
//! operations — read, write, seek, line-buffered scanning — such that once
//! any operation fails, every later operation in the chain is skipped and
//! the original error is preserved until explicitly handled with `or` or
//! `or_else`. Each operation consumes the wrapper and produces a new one,
//! so the handle has exactly one owner at any instant.

use vstd::prelude::*;

pub mod caps;
pub mod chunks;
pub mod constructors;
pub mod errors;
pub mod iomonad;
pub mod memhandle;
pub mod realworld;

use crate::caps::{Readable, Writable, Seekable, BufReadable, SeekFrom};
pub use crate::constructors::{FromPath, FromAddr};
use crate::errors::IoError;
use crate::iomonad::{Io, wrap_result};
use crate::realworld::RealWorld;

verus! {

/// Creates the default wrapper, around the process's standard streams.
pub fn burrito() -> (r: Burrito<(), RealWorld>)
    ensures
        r.0 is Good,
        r.0->Good_0 == (),
{
    Burrito(Io::Good((), RealWorld::new()))
}

/// The fundamental wrapper of the library: either `Good` — the value the
/// last operation produced, plus the live handle it now exclusively owns —
/// or `Bad` — a captured error, the handle gone.
///
/// Operations consume the wrapper by value and produce a new one, so a
/// handle is never reachable through two wrappers at once. On a `Bad`
/// wrapper every operation except the recovery combinators is a no-op that
/// re-wraps the same error and performs no I/O — structurally guaranteed,
/// since a `Bad` wrapper holds no handle to perform it on.
pub struct Burrito<A, T>(pub Io<A, T>);

impl<T> Burrito<(), T> {
    /// Wraps the result of constructing a handle: `Good` around the fresh
    /// handle on success, `Bad` around the error on failure. No I/O happens
    /// here beyond what the caller already did to produce the result.
    pub fn wrap(inner: Result<T, IoError>) -> (r: Burrito<(), T>)
        ensures
            r.0 == wrap_result(inner),
    {
        match inner {
            Ok(h) => Burrito(Io::Good((), h)),
            Err(e) => Burrito(Io::Bad(e)),
        }
    }

    /// Like `wrap`, but the constructing operation is invoked lazily inside
    /// this call.
    pub fn wrap_func<F: FnOnce() -> Result<T, IoError>>(f: F) -> (r: Burrito<(), T>)
        requires
            call_requires(f, ()),
        ensures
            exists|inner: Result<T, IoError>|
                #[trigger] call_ensures(f, (), inner) && r.0 == wrap_result(inner),
    {
        let inner = f();
        match inner {
            Ok(h) => Burrito(Io::Good((), h)),
            Err(e) => Burrito(Io::Bad(e)),
        }
    }
}

impl Burrito<(), ()> {
    /// Constructs a handle from a filesystem path, according to the handle
    /// type's `FromPath`, and wraps it; a failed construction surfaces as
    /// the wrapper's initial `Bad`.
    pub fn from_path<T: FromPath>(path: &str) -> (r: Burrito<(), T>)
        ensures
            r.0 is Good ==> r.0->Good_0 == (),
    {
        match T::from_path(path) {
            Ok(h) => Burrito(Io::Good((), h)),
            Err(e) => Burrito(Io::Bad(e)),
        }
    }

    /// Constructs a handle from a network address, according to the handle
    /// type's `FromAddr`, and wraps it; a failed construction surfaces as
    /// the wrapper's initial `Bad`.
    pub fn from_addr<T: FromAddr>(addr: &str) -> (r: Burrito<(), T>)
        ensures
            r.0 is Good ==> r.0->Good_0 == (),
    {
        match T::from_addr(addr) {
            Ok(h) => Burrito(Io::Good((), h)),
            Err(e) => Burrito(Io::Bad(e)),
        }
    }
}

impl<A, T> Burrito<A, T> {
    /// Pivots to `alternative` if this wrapper is good; stays bad with the
    /// same error otherwise. The alternative is taken by value, so whatever
    /// expression produced it has already run — even when this wrapper is
    /// bad. Only `and_then` is lazy.
    pub fn and<B, U>(self, alternative: Burrito<B, U>) -> (r: Burrito<B, U>)
        ensures
            self.0 is Good ==> r == alternative,
            self.0 is Bad ==> r.0 == Io::<B, U>::Bad(self.0->Bad_0),
    {
        match self {
            Burrito(Io::Good(_, _)) => alternative,
            Burrito(Io::Bad(e)) => Burrito(Io::Bad(e)),
        }
    }

    /// If this wrapper is good, hands the last value and a fresh good
    /// wrapper around the same handle (its value slot reset to unit) to `f`,
    /// and returns whatever `f` produces. If it is bad, `f` is never invoked
    /// and the error propagates unchanged.
    pub fn and_then<B, U, F: FnOnce(A, Burrito<(), T>) -> Burrito<B, U>>(self, f: F) -> (r:
        Burrito<B, U>)
        requires
            self.0 is Good ==> call_requires(
                f,
                (self.0->Good_0, Burrito(Io::Good((), self.0->Good_1))),
            ),
        ensures
            self.0 is Bad ==> r.0 == Io::<B, U>::Bad(self.0->Bad_0),
            self.0 is Good ==> call_ensures(
                f,
                (self.0->Good_0, Burrito(Io::Good((), self.0->Good_1))),
                r,
            ),
    {
        match self {
            Burrito(Io::Good(data, h)) => f(data, Burrito(Io::Good((), h))),
            Burrito(Io::Bad(e)) => Burrito(Io::Bad(e)),
        }
    }

    /// Substitutes `alternative` if this wrapper has gone bad; passes a good
    /// wrapper through unchanged. The alternative is taken by value, so it
    /// was constructed — its side effects happened — even when this wrapper
    /// is good. Only `or_else` is lazy.
    pub fn or(self, alternative: Burrito<A, T>) -> (r: Burrito<A, T>)
        ensures
            self.0 is Bad ==> r == alternative,
            self.0 is Good ==> r == self,
    {
        match self {
            Burrito(Io::Bad(_)) => alternative,
            good => good,
        }
    }

    /// If this wrapper has gone bad, hands the captured error to `f` and
    /// returns its result; a good wrapper passes through and `f` is never
    /// invoked. This is the only way to leave the bad state and inspect the
    /// error.
    pub fn or_else<F: FnOnce(IoError) -> Burrito<A, T>>(self, f: F) -> (r: Burrito<A, T>)
        requires
            self.0 is Bad ==> call_requires(f, (self.0->Bad_0,)),
        ensures
            self.0 is Good ==> r == self,
            self.0 is Bad ==> call_ensures(f, (self.0->Bad_0,), r),
    {
        match self {
            Burrito(Io::Bad(e)) => f(e),
            good => good,
        }
    }

    /// Drops the value the last operation produced, keeping the good/bad
    /// state and the handle.
    pub fn ignore(self) -> (r: Burrito<(), T>)
        ensures
            self.0 is Good ==> r.0 == Io::<(), T>::Good((), self.0->Good_1),
            self.0 is Bad ==> r.0 == Io::<(), T>::Bad(self.0->Bad_0),
    {
        match self {
            Burrito(Io::Good(_, h)) => Burrito(Io::Good((), h)),
            Burrito(Io::Bad(e)) => Burrito(Io::Bad(e)),
        }
    }

    /// True exactly when the wrapper has not failed.
    pub fn is_good(&self) -> (r: bool)
        ensures
            r == (self.0 is Good),
    {
        match *self {
            Burrito(Io::Good(_, _)) => true,
            Burrito(Io::Bad(_)) => false,
        }
    }

    /// True exactly when the wrapper has failed.
    pub fn is_bad(&self) -> (r: bool)
        ensures
            r == (self.0 is Bad),
    {
        !self.is_good()
    }

    /// Terminal: the last value and the handle on success, the captured
    /// error on failure. Performs no I/O.
    pub fn ok(self) -> (r: Result<(A, T), IoError>)
        ensures
            self.0 is Good ==> r == Ok::<(A, T), IoError>((self.0->Good_0, self.0->Good_1)),
            self.0 is Bad ==> r == Err::<(A, T), IoError>(self.0->Bad_0),
    {
        match self {
            Burrito(Io::Good(data, h)) => Ok((data, h)),
            Burrito(Io::Bad(e)) => Err(e),
        }
    }

    /// Terminal: the last value alone on success, the captured error on
    /// failure. Performs no I/O.
    pub fn to_data(self) -> (r: Result<A, IoError>)
        ensures
            self.0 is Good ==> r == Ok::<A, IoError>(self.0->Good_0),
            self.0 is Bad ==> r == Err::<A, IoError>(self.0->Bad_0),
    {
        match self {
            Burrito(Io::Good(data, _)) => Ok(data),
            Burrito(Io::Bad(e)) => Err(e),
        }
    }

    /// Terminal: the handle alone on success, the captured error on
    /// failure. Performs no I/O.
    pub fn to_handle(self) -> (r: Result<T, IoError>)
        ensures
            self.0 is Good ==> r == Ok::<T, IoError>(self.0->Good_1),
            self.0 is Bad ==> r == Err::<T, IoError>(self.0->Bad_0),
    {
        match self {
            Burrito(Io::Good(_, h)) => Ok(h),
            Burrito(Io::Bad(e)) => Err(e),
        }
    }
}

impl<A, T: Readable> Burrito<A, T> {
    /// One read of at most `n` bytes; a short read is success. On a bad
    /// wrapper, a no-op that re-wraps the same error.
    pub fn read(self, n: usize) -> (r: Burrito<Vec<u8>, T>)
        ensures
            (match self.0 {
                Io::Bad(e) => r.0 == Io::<Vec<u8>, T>::Bad(e),
                Io::Good(_, h) => match r.0 {
                    Io::Good(bytes, h2) => bytes@.len() <= n && T::read_ok(h, n, bytes@, h2),
                    Io::Bad(e) => exists|h2: T| T::read_err(h, n, e, h2),
                },
            }),
    {
        Burrito(self.0.read(n))
    }

    /// Reads to the end of the handle. On a bad wrapper, a no-op that
    /// re-wraps the same error.
    pub fn read_to_end(self) -> (r: Burrito<Vec<u8>, T>)
        ensures
            (match self.0 {
                Io::Bad(e) => r.0 == Io::<Vec<u8>, T>::Bad(e),
                Io::Good(_, h) => match r.0 {
                    Io::Good(bytes, h2) => T::read_to_end_ok(h, bytes@, h2),
                    Io::Bad(e) => exists|h2: T| T::read_to_end_err(h, e, h2),
                },
            }),
    {
        Burrito(self.0.read_to_end())
    }

    /// Reads everything from the handle as text. On a bad wrapper, a no-op
    /// that re-wraps the same error.
    pub fn read_to_string(self) -> (r: Burrito<String, T>)
        ensures
            (match self.0 {
                Io::Bad(e) => r.0 == Io::<String, T>::Bad(e),
                Io::Good(_, h) => match r.0 {
                    Io::Good(text, h2) => T::read_to_string_ok(h, text@, h2),
                    Io::Bad(e) => exists|h2: T| T::read_to_string_err(h, e, h2),
                },
            }),
    {
        Burrito(self.0.read_to_string())
    }
}

impl<A, T: Writable> Burrito<A, T> {
    /// One write; carries the number of bytes actually accepted, possibly
    /// fewer than the buffer holds. On a bad wrapper, a no-op that re-wraps
    /// the same error.
    pub fn write(self, buf: &[u8]) -> (r: Burrito<usize, T>)
        ensures
            (match self.0 {
                Io::Bad(e) => r.0 == Io::<usize, T>::Bad(e),
                Io::Good(_, h) => match r.0 {
                    Io::Good(n, h2) => n <= buf@.len() && T::write_ok(h, buf@, n, h2),
                    Io::Bad(e) => exists|h2: T| T::write_err(h, buf@, e, h2),
                },
            }),
    {
        Burrito(self.0.write(buf))
    }

    /// Writes the whole buffer or goes bad with the underlying error;
    /// nothing beyond the prefix the handle accepted is claimed written. On
    /// a bad wrapper, a no-op that re-wraps the same error.
    pub fn write_all(self, buf: &[u8]) -> (r: Burrito<(), T>)
        ensures
            (match self.0 {
                Io::Bad(e) => r.0 == Io::<(), T>::Bad(e),
                Io::Good(_, h) => match r.0 {
                    Io::Good(u, h2) => T::write_all_ok(h, buf@, h2),
                    Io::Bad(e) => exists|h2: T| T::write_all_err(h, buf@, e, h2),
                },
            }),
    {
        Burrito(self.0.write_all(buf))
    }

    /// Writes pre-formatted text. On a bad wrapper, a no-op that re-wraps
    /// the same error.
    pub fn write_fmt(self, text: &str) -> (r: Burrito<(), T>)
        ensures
            (match self.0 {
                Io::Bad(e) => r.0 == Io::<(), T>::Bad(e),
                Io::Good(_, h) => match r.0 {
                    Io::Good(u, h2) => T::write_fmt_ok(h, text@, h2),
                    Io::Bad(e) => exists|h2: T| T::write_fmt_err(h, text@, e, h2),
                },
            }),
    {
        Burrito(self.0.write_fmt(text))
    }
}

impl<A, T: Seekable> Burrito<A, T> {
    /// Repositions the handle; carries the resulting absolute offset. On a
    /// bad wrapper, a no-op that re-wraps the same error.
    pub fn seek(self, pos: SeekFrom) -> (r: Burrito<u64, T>)
        ensures
            (match self.0 {
                Io::Bad(e) => r.0 == Io::<u64, T>::Bad(e),
                Io::Good(_, h) => match r.0 {
                    Io::Good(offset, h2) => T::seek_ok(h, pos, offset, h2),
                    Io::Bad(e) => exists|h2: T| T::seek_err(h, pos, e, h2),
                },
            }),
    {
        Burrito(self.0.seek(pos))
    }
}

impl<A, T: BufReadable> Burrito<A, T> {
    /// Fills the internal buffer of the buffered handle; the filled bytes
    /// themselves are not exposed. On a bad wrapper, a no-op that re-wraps
    /// the same error.
    pub fn fill_buf(self) -> (r: Burrito<(), T>)
        ensures
            (match self.0 {
                Io::Bad(e) => r.0 == Io::<(), T>::Bad(e),
                Io::Good(_, h) => match r.0 {
                    Io::Good(u, h2) => T::fill_buf_ok(h, h2),
                    Io::Bad(e) => exists|h2: T| T::fill_buf_err(h, e, h2),
                },
            }),
    {
        Burrito(self.0.fill_buf())
    }

    /// Marks `amt` buffered bytes as consumed; cannot fail. On a bad
    /// wrapper, a no-op that re-wraps the same error.
    pub fn consume(self, amt: usize) -> (r: Burrito<(), T>)
        ensures
            (match self.0 {
                Io::Bad(e) => r.0 == Io::<(), T>::Bad(e),
                Io::Good(_, h) => match r.0 {
                    Io::Good(u, h2) => T::consume_ok(h, amt, h2),
                    Io::Bad(e) => false,
                },
            }),
    {
        Burrito(self.0.consume(amt))
    }

    /// Reads up to and including the first occurrence of `byte`; end of
    /// input is not a failure. On a bad wrapper, a no-op that re-wraps the
    /// same error.
    pub fn read_until(self, byte: u8) -> (r: Burrito<Vec<u8>, T>)
        ensures
            (match self.0 {
                Io::Bad(e) => r.0 == Io::<Vec<u8>, T>::Bad(e),
                Io::Good(_, h) => match r.0 {
                    Io::Good(bytes, h2) => T::read_until_ok(h, byte, bytes@, h2),
                    Io::Bad(e) => exists|h2: T| T::read_until_err(h, byte, e, h2),
                },
            }),
    {
        Burrito(self.0.read_until(byte))
    }

    /// Reads one line of text from the buffered handle. On a bad wrapper, a
    /// no-op that re-wraps the same error.
    pub fn read_line(self) -> (r: Burrito<String, T>)
        ensures
            (match self.0 {
                Io::Bad(e) => r.0 == Io::<String, T>::Bad(e),
                Io::Good(_, h) => match r.0 {
                    Io::Good(text, h2) => T::read_line_ok(h, text@, h2),
                    Io::Bad(e) => exists|h2: T| T::read_line_err(h, e, h2),
                },
            }),
    {
        Burrito(self.0.read_line())
    }

    /// Terminal: consumes the wrapper and returns a byte-chunk scanner split
    /// on `byte`, or the captured error of a bad wrapper.
    pub fn split(self, byte: u8) -> (r: Result<crate::chunks::Split<T>, IoError>)
        ensures
            (match self.0 {
                Io::Bad(e) => r == Err::<crate::chunks::Split<T>, IoError>(e),
                Io::Good(_, h) => match r {
                    Ok(s) => s.handle() == h && s.delimiter() == byte,
                    Err(_) => false,
                },
            }),
    {
        self.0.split(byte)
    }

    /// Terminal: consumes the wrapper and returns a line scanner, or the
    /// captured error of a bad wrapper.
    pub fn lines(self) -> (r: Result<crate::chunks::Lines<T>, IoError>)
        ensures
            (match self.0 {
                Io::Bad(e) => r == Err::<crate::chunks::Lines<T>, IoError>(e),
                Io::Good(_, h) => match r {
                    Ok(s) => s.handle() == h,
                    Err(_) => false,
                },
            }),
    {
        self.0.lines()
    }
}

} // verus!
