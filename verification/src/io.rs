//! Byte sinks.

use vstd::prelude::*;
use vstd::slice::slice_subrange;

verus! {

/// Writing to a sink failed.
#[derive(Debug, PartialEq, Eq)]
#[non_exhaustive]
pub struct Error {}

/// The message of the error.
pub open spec fn error_text() -> Seq<char> {
    "I/O operations are not supported in no_std environments"@
}

impl Error {
    /// The error.
    pub fn new() -> (e: Error)
        ensures
            e == (Error {  }),
    {
        Error {  }
    }

    /// The message of the error.
    pub fn to_string(&self) -> (s: String)
        ensures
            s@ == error_text(),
    {
        "I/O operations are not supported in no_std environments".to_owned()
    }
}

/// What one write comes to, of a buffer of which `done` bytes of `total`
/// were written before it: a write that takes bytes moves on by that many,
/// a write that takes none is an error, and a write that fails hands its
/// error on.
pub open spec fn advanced(done: usize, outcome: Result<usize, Error>) -> Result<usize, Error> {
    match outcome {
        Ok(n) => if n == 0 {
            Err(Error {  })
        } else {
            Ok((done + n) as usize)
        },
        Err(e) => Err(e),
    }
}

/// The number of bytes that are written after one more write, or the
/// error that ends the attempt.
pub fn advance(done: usize, total: usize, outcome: Result<usize, Error>) -> (r: Result<usize, Error>)
    requires
        done <= total,
        outcome matches Ok(n) ==> n <= total - done,
    ensures
        r == advanced(done, outcome),
        r matches Ok(next) ==> done < next <= total,
{
    match outcome {
        Ok(n) => {
            if n == 0 {
                Err(Error {  })
            } else {
                Ok(done + n)
            }
        },
        Err(e) => Err(e),
    }
}

/// A trait for objects which are byte-oriented sinks.
///
/// The spec function [`written`](Write::written) names the bytes that the
/// sink has taken so far; the methods say what they add to them.
pub trait Write {
    /// The bytes that the sink has taken so far.
    spec fn written(&self) -> Seq<u8>;

    /// Writes some bytes from the start of a buffer and returns how many
    /// were written: no more than the buffer holds. A write that fails
    /// takes no bytes.
    fn write(&mut self, buf: &[u8]) -> (r: Result<usize, Error>)
        ensures
            match r {
                Ok(n) => n <= buf@.len() && final(self).written() == old(self).written() + buf@.take(
                    n as int,
                ),
                Err(_) => final(self).written() == old(self).written(),
            },
    ;

    /// Flush data being written. The bytes that were taken stay the same.
    fn flush(&mut self) -> (r: Result<(), Error>)
        ensures
            final(self).written() == old(self).written(),
    ;

    /// Attempts to write an entire buffer into this writer.
    ///
    /// The buffer is written piece by piece until nothing is left. A
    /// write of no bytes, or one that fails, ends the attempt with an
    /// error, as [`advance`] says of each write; a part of the buffer may
    /// then have been written. An empty buffer is written without a
    /// write, so that nothing can fail.
    fn write_all(&mut self, buf: &[u8]) -> (r: Result<(), Error>)
        ensures
            buf@.len() == 0 ==> r is Ok,
            match r {
                Ok(_) => final(self).written() == old(self).written() + buf@,
                Err(_) => exists|n: int|
                    0 <= n <= buf@.len() && final(self).written() == old(self).written() + #[trigger] buf@.take(
                        n,
                    ),
            },
    {
        let mut done: usize = 0;
        assert(self.written() =~= old(self).written() + buf@.take(0));
        while done < buf.len()
            invariant
                done <= buf@.len(),
                self.written() == old(self).written() + buf@.take(done as int),
            decreases buf@.len() - done,
        {
            let rest = slice_subrange(buf, done, buf.len());
            let outcome = self.write(rest);
            proof {
                if let Ok(n) = outcome {
                    assert(buf@.take(done as int) + rest@.take(n as int) =~= buf@.take(done + n));
                }
            }
            match advance(done, buf.len(), outcome) {
                Ok(next) => {
                    done = next;
                },
                Err(e) => {
                    return Err(e);
                },
            }
        }
        assert(buf@.take(buf@.len() as int) =~= buf@);
        Ok(())
    }
}

impl Write for Vec<u8> {
    open spec fn written(&self) -> Seq<u8> {
        self@
    }

    fn write(&mut self, buf: &[u8]) -> (r: Result<usize, Error>)
        ensures
            r == Ok::<usize, Error>(buf@.len() as usize),
    {
        self.extend_from_slice(buf);
        assert(buf@.take(buf@.len() as int) =~= buf@);
        Ok(buf.len())
    }

    fn flush(&mut self) -> (r: Result<(), Error>)
        ensures
            r is Ok,
    {
        Ok(())
    }

    fn write_all(&mut self, buf: &[u8]) -> (r: Result<(), Error>)
        ensures
            r is Ok,
    {
        self.extend_from_slice(buf);
        Ok(())
    }
}

} // verus!
