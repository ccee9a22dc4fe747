use vstd::prelude::*;
use vstd::string::StrSliceExecFns;
use std::io::Read;
use std::io::Write;
use crate::caps::{Readable, Writable};
use crate::errors::IoError;
use crate::iomonad::Io;
use crate::Burrito;

verus! {

#[verifier::external_type_specification]
#[verifier::external_body]
pub struct ExStdin(std::io::Stdin);

#[verifier::external_type_specification]
#[verifier::external_body]
pub struct ExStdout(std::io::Stdout);

#[verifier::external_type_specification]
#[verifier::external_body]
pub struct ExStderr(std::io::Stderr);

/// The process's standard streams, bundled as one handle. No cross-call lock
/// is held: each operation locks the one stream it touches for the duration
/// of that single call only, so interleaving with other code touching the
/// same streams is possible and not synchronized by this library.
pub struct RealWorld {
    pub stdin: std::io::Stdin,
    pub stdout: std::io::Stdout,
    pub stderr: std::io::Stderr,
}

/// Relies on std::io::stdin: a fresh handle to the process's standard input.
#[verifier::external_body]
fn acquire_stdin() -> std::io::Stdin {
    std::io::stdin()
}

/// Relies on std::io::stdout: a fresh handle to the process's standard output.
#[verifier::external_body]
fn acquire_stdout() -> std::io::Stdout {
    std::io::stdout()
}

/// Relies on std::io::stderr: a fresh handle to the process's standard error.
#[verifier::external_body]
fn acquire_stderr() -> std::io::Stderr {
    std::io::stderr()
}

/// Relies on Read::read for Stdin (locking for this one call): reads at most
/// `n` bytes into a fresh buffer, which is truncated to the count actually
/// read.
#[verifier::external_body]
fn stdin_read(s: &mut std::io::Stdin, n: usize) -> (r: Result<Vec<u8>, std::io::Error>)
    ensures
        (r matches Ok(bytes) ==> bytes@.len() <= n),
{
    let mut buf = vec![0u8; n];
    match s.read(&mut buf) {
        Ok(k) => {
            buf.truncate(k);
            Ok(buf)
        }
        Err(e) => Err(e),
    }
}

/// Relies on Read::read_to_end for Stdin: reads until end of input.
#[verifier::external_body]
fn stdin_read_to_end(s: &mut std::io::Stdin) -> Result<Vec<u8>, std::io::Error> {
    let mut buf = Vec::new();
    match s.read_to_end(&mut buf) {
        Ok(_) => Ok(buf),
        Err(e) => Err(e),
    }
}

/// Relies on Read::read_to_string for Stdin: reads until end of input,
/// failing if the bytes are not valid text.
#[verifier::external_body]
fn stdin_read_to_string(s: &mut std::io::Stdin) -> Result<String, std::io::Error> {
    let mut buf = String::new();
    match s.read_to_string(&mut buf) {
        Ok(_) => Ok(buf),
        Err(e) => Err(e),
    }
}

/// Relies on Stdin::read_line (locking for this one call): it reads until
/// the first line feed is reached and appends what was read, the delimiter
/// included, so the returned text holds a line feed at its end or — at end
/// of input — not at all: never before its last character.
#[verifier::external_body]
fn stdin_read_line(s: &mut std::io::Stdin) -> (r: Result<String, std::io::Error>)
    ensures
        (r matches Ok(line) ==> forall|i: int| 0 <= i < line@.len() - 1 ==> line@[i] != '\n'),
{
    let mut buf = String::new();
    match s.read_line(&mut buf) {
        Ok(_) => Ok(buf),
        Err(e) => Err(e),
    }
}

/// Relies on Write::write for Stdout (locking for this one call): accepts at
/// most the whole buffer.
#[verifier::external_body]
fn stdout_write(w: &mut std::io::Stdout, buf: &[u8]) -> (r: Result<usize, std::io::Error>)
    ensures
        (r matches Ok(n) ==> n <= buf@.len()),
{
    w.write(buf)
}

/// Relies on Write::write_all for Stdout: writes the whole buffer or fails.
#[verifier::external_body]
fn stdout_write_all(w: &mut std::io::Stdout, buf: &[u8]) -> Result<(), std::io::Error> {
    w.write_all(buf)
}

/// Relies on Write::write_all for Stdout: writes the text's bytes in whole.
#[verifier::external_body]
fn stdout_write_str(w: &mut std::io::Stdout, s: &str) -> Result<(), std::io::Error> {
    w.write_all(s.as_bytes())
}

/// The bytes a printed line hands to the sink: the text's encoding with a
/// line feed affixed to the end. Built by verified code, so that what goes
/// out is fixed here and not inside a trusted body.
fn line_with_feed(s: &str) -> (v: Vec<u8>)
    ensures
        v@ == vstd::utf8::encode_utf8(s@).push(10u8),
{
    let mut v = s.as_bytes_vec();
    v.push(10u8);
    v
}

/// Relies on Write::write for Stderr (locking for this one call): accepts at
/// most the whole buffer.
#[verifier::external_body]
fn stderr_write(w: &mut std::io::Stderr, buf: &[u8]) -> (r: Result<usize, std::io::Error>)
    ensures
        (r matches Ok(n) ==> n <= buf@.len()),
{
    w.write(buf)
}

/// Relies on Write::write_all for Stderr: writes the whole buffer or fails.
#[verifier::external_body]
fn stderr_write_all(w: &mut std::io::Stderr, buf: &[u8]) -> Result<(), std::io::Error> {
    w.write_all(buf)
}

/// Relies on Write::write_all for Stderr: writes the text's bytes in whole.
#[verifier::external_body]
fn stderr_write_str(w: &mut std::io::Stderr, s: &str) -> Result<(), std::io::Error> {
    w.write_all(s.as_bytes())
}

impl RealWorld {
    /// Acquires the three standard streams of this process.
    pub fn new() -> RealWorld {
        RealWorld { stdin: acquire_stdin(), stdout: acquire_stdout(), stderr: acquire_stderr() }
    }
}

impl Default for RealWorld {
    /// The three standard streams; the same as `new`. The streams are
    /// opaque, so there is nothing to state of the value.
    fn default() -> RealWorld {
        RealWorld::new()
    }
}

/// Reading a `RealWorld` handle reads standard input. Nothing is promised of
/// what the outside world supplies, so every behavior predicate is simply
/// true: the generic guarantees (a short read stays within `n`; a bad
/// wrapper propagates) are all a caller can rely on.
impl Readable for RealWorld {
    open spec fn read_ok(pre: RealWorld, n: usize, bytes: Seq<u8>, post: RealWorld) -> bool {
        true
    }

    open spec fn read_err(pre: RealWorld, n: usize, e: IoError, post: RealWorld) -> bool {
        true
    }

    open spec fn read_to_end_ok(pre: RealWorld, bytes: Seq<u8>, post: RealWorld) -> bool {
        true
    }

    open spec fn read_to_end_err(pre: RealWorld, e: IoError, post: RealWorld) -> bool {
        true
    }

    open spec fn read_to_string_ok(pre: RealWorld, text: Seq<char>, post: RealWorld) -> bool {
        true
    }

    open spec fn read_to_string_err(pre: RealWorld, e: IoError, post: RealWorld) -> bool {
        true
    }

    fn read(&mut self, n: usize) -> (r: Result<Vec<u8>, IoError>) {
        match stdin_read(&mut self.stdin, n) {
            Ok(bytes) => Ok(bytes),
            Err(e) => Err(IoError::from_std(e)),
        }
    }

    fn read_to_end(&mut self) -> (r: Result<Vec<u8>, IoError>) {
        match stdin_read_to_end(&mut self.stdin) {
            Ok(bytes) => Ok(bytes),
            Err(e) => Err(IoError::from_std(e)),
        }
    }

    fn read_to_string(&mut self) -> (r: Result<String, IoError>) {
        match stdin_read_to_string(&mut self.stdin) {
            Ok(text) => Ok(text),
            Err(e) => Err(IoError::from_std(e)),
        }
    }
}

/// Writing a `RealWorld` handle writes standard output; the `_to_err`
/// operations on the wrapper reach standard error instead. As with reading,
/// nothing is promised of the outside world.
impl Writable for RealWorld {
    open spec fn write_ok(pre: RealWorld, buf: Seq<u8>, n: usize, post: RealWorld) -> bool {
        true
    }

    open spec fn write_err(pre: RealWorld, buf: Seq<u8>, e: IoError, post: RealWorld) -> bool {
        true
    }

    open spec fn write_all_ok(pre: RealWorld, buf: Seq<u8>, post: RealWorld) -> bool {
        true
    }

    open spec fn write_all_err(pre: RealWorld, buf: Seq<u8>, e: IoError, post: RealWorld) -> bool {
        true
    }

    open spec fn write_fmt_ok(pre: RealWorld, text: Seq<char>, post: RealWorld) -> bool {
        true
    }

    open spec fn write_fmt_err(pre: RealWorld, text: Seq<char>, e: IoError, post: RealWorld) -> bool {
        true
    }

    fn write(&mut self, buf: &[u8]) -> (r: Result<usize, IoError>) {
        match stdout_write(&mut self.stdout, buf) {
            Ok(n) => Ok(n),
            Err(e) => Err(IoError::from_std(e)),
        }
    }

    fn write_all(&mut self, buf: &[u8]) -> (r: Result<(), IoError>) {
        match stdout_write_all(&mut self.stdout, buf) {
            Ok(_) => Ok(()),
            Err(e) => Err(IoError::from_std(e)),
        }
    }

    fn write_fmt(&mut self, text: &str) -> (r: Result<(), IoError>) {
        match stdout_write_str(&mut self.stdout, text) {
            Ok(_) => Ok(()),
            Err(e) => Err(IoError::from_std(e)),
        }
    }
}

impl<A> Io<A, RealWorld> {
    /// Prints a line to standard output: one `write_all` of the text's bytes
    /// with a line feed affixed, built by verified code (`line_with_feed`).
    /// A bad state propagates and nothing is printed.
    pub fn print_line(self, buf: &str) -> (r: Io<(), RealWorld>)
        ensures
            (match self {
                Io::Bad(e) => r == Io::<(), RealWorld>::Bad(e),
                Io::Good(_, _) => r is Good ==> r->Good_0 == (),
            }),
    {
        match self {
            Io::Good(_, mut rw) => {
                let line = line_with_feed(buf);
                match stdout_write_all(&mut rw.stdout, line.as_slice()) {
                    Ok(_) => Io::Good((), rw),
                    Err(e) => Io::Bad(IoError::from_std(e)),
                }
            }
            Io::Bad(e) => Io::Bad(e),
        }
    }

    /// Reads a line from standard input, line ending included: the carried
    /// text holds a line feed nowhere but at its end — at end of input,
    /// nowhere at all. A bad state propagates and nothing is read.
    pub fn read_line(self) -> (r: Io<String, RealWorld>)
        ensures
            (match self {
                Io::Bad(e) => r == Io::<String, RealWorld>::Bad(e),
                Io::Good(_, _) => match r {
                    Io::Good(line, _) => forall|i: int|
                        0 <= i < line@.len() - 1 ==> line@[i] != '\n',
                    Io::Bad(_) => true,
                },
            }),
    {
        match self {
            Io::Good(_, mut rw) => {
                match stdin_read_line(&mut rw.stdin) {
                    Ok(text) => Io::Good(text, rw),
                    Err(e) => Io::Bad(IoError::from_std(e)),
                }
            }
            Io::Bad(e) => Io::Bad(e),
        }
    }

    /// One write to standard error; carries the number of bytes accepted.
    /// A bad state propagates and nothing is written.
    pub fn write_to_err(self, buf: &[u8]) -> (r: Io<usize, RealWorld>)
        ensures
            (match self {
                Io::Bad(e) => r == Io::<usize, RealWorld>::Bad(e),
                Io::Good(_, _) => match r {
                    Io::Good(n, _) => n <= buf@.len(),
                    Io::Bad(_) => true,
                },
            }),
    {
        match self {
            Io::Good(_, mut rw) => {
                match stderr_write(&mut rw.stderr, buf) {
                    Ok(n) => Io::Good(n, rw),
                    Err(e) => Io::Bad(IoError::from_std(e)),
                }
            }
            Io::Bad(e) => Io::Bad(e),
        }
    }

    /// Writes the whole buffer to standard error, or goes bad with the
    /// underlying error. A bad state propagates and nothing is written.
    pub fn write_all_to_err(self, buf: &[u8]) -> (r: Io<(), RealWorld>)
        ensures
            (match self {
                Io::Bad(e) => r == Io::<(), RealWorld>::Bad(e),
                Io::Good(_, _) => r is Good ==> r->Good_0 == (),
            }),
    {
        match self {
            Io::Good(_, mut rw) => {
                match stderr_write_all(&mut rw.stderr, buf) {
                    Ok(_) => Io::Good((), rw),
                    Err(e) => Io::Bad(IoError::from_std(e)),
                }
            }
            Io::Bad(e) => Io::Bad(e),
        }
    }

    /// Writes pre-formatted text to standard error. A bad state propagates
    /// and nothing is written.
    pub fn write_fmt_to_err(self, text: &str) -> (r: Io<(), RealWorld>)
        ensures
            (match self {
                Io::Bad(e) => r == Io::<(), RealWorld>::Bad(e),
                Io::Good(_, _) => r is Good ==> r->Good_0 == (),
            }),
    {
        match self {
            Io::Good(_, mut rw) => {
                match stderr_write_str(&mut rw.stderr, text) {
                    Ok(_) => Io::Good((), rw),
                    Err(e) => Io::Bad(IoError::from_std(e)),
                }
            }
            Io::Bad(e) => Io::Bad(e),
        }
    }
}

impl<A> Burrito<A, RealWorld> {
    /// Prints a line to standard output: one `write_all` of the text's bytes
    /// with a line feed affixed, built by verified code. On a bad wrapper, a
    /// no-op that re-wraps the same error.
    pub fn print_line(self, buf: &str) -> (r: Burrito<(), RealWorld>)
        ensures
            (match self.0 {
                Io::Bad(e) => r.0 == Io::<(), RealWorld>::Bad(e),
                Io::Good(_, _) => r.0 is Good ==> r.0->Good_0 == (),
            }),
    {
        Burrito(self.0.print_line(buf))
    }

    /// Reads a line from standard input, line ending included: the carried
    /// text holds a line feed nowhere but at its end — at end of input,
    /// nowhere at all. On a bad wrapper, a no-op that re-wraps the same
    /// error.
    pub fn read_line(self) -> (r: Burrito<String, RealWorld>)
        ensures
            (match self.0 {
                Io::Bad(e) => r.0 == Io::<String, RealWorld>::Bad(e),
                Io::Good(_, _) => match r.0 {
                    Io::Good(line, _) => forall|i: int|
                        0 <= i < line@.len() - 1 ==> line@[i] != '\n',
                    Io::Bad(_) => true,
                },
            }),
    {
        Burrito(self.0.read_line())
    }

    /// One write to standard error instead of standard output. On a bad
    /// wrapper, a no-op that re-wraps the same error.
    pub fn write_to_err(self, buf: &[u8]) -> (r: Burrito<usize, RealWorld>)
        ensures
            (match self.0 {
                Io::Bad(e) => r.0 == Io::<usize, RealWorld>::Bad(e),
                Io::Good(_, _) => match r.0 {
                    Io::Good(n, _) => n <= buf@.len(),
                    Io::Bad(_) => true,
                },
            }),
    {
        Burrito(self.0.write_to_err(buf))
    }

    /// A `write_all` to standard error instead of standard output. On a bad
    /// wrapper, a no-op that re-wraps the same error.
    pub fn write_all_to_err(self, buf: &[u8]) -> (r: Burrito<(), RealWorld>)
        ensures
            (match self.0 {
                Io::Bad(e) => r.0 == Io::<(), RealWorld>::Bad(e),
                Io::Good(_, _) => r.0 is Good ==> r.0->Good_0 == (),
            }),
    {
        Burrito(self.0.write_all_to_err(buf))
    }

    /// A `write_fmt` to standard error instead of standard output. On a bad
    /// wrapper, a no-op that re-wraps the same error.
    pub fn write_fmt_to_err(self, text: &str) -> (r: Burrito<(), RealWorld>)
        ensures
            (match self.0 {
                Io::Bad(e) => r.0 == Io::<(), RealWorld>::Bad(e),
                Io::Good(_, _) => r.0 is Good ==> r.0->Good_0 == (),
            }),
    {
        Burrito(self.0.write_fmt_to_err(text))
    }
}

impl Default for Burrito<(), RealWorld> {
    /// The default wrapper: good, around the process's standard streams.
    fn default() -> (r: Burrito<(), RealWorld>)
        ensures
            r.0 is Good,
            r.0->Good_0 == (),
    {
        Burrito(Io::Good((), RealWorld::new()))
    }
}

} // verus!
