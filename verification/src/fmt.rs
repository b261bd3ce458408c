//! The formatter that values of the virtual machine write themselves to.

use vstd::prelude::*;
use crate::memory::Error;
use crate::text::push_text;

verus! {

/// Appends a character to a string.
///
/// Trusted: calls `String::push` of the standard library, which appends
/// the given character to the end of the string.
#[verifier::external_body]
fn string_push(s: &mut String, c: char)
    ensures
        final(s)@ == old(s)@.push(c),
{
    s.push(c)
}

/// An empty string with room for `capacity` bytes.
///
/// Trusted: calls `String::with_capacity` of the standard library, which
/// returns an empty string; it panics where the capacity exceeds
/// `isize::MAX` bytes, which the precondition leaves out.
#[verifier::external_body]
fn string_with_capacity(capacity: usize) -> (s: String)
    requires
        capacity <= isize::MAX,
    ensures
        s@ == Seq::<char>::empty(),
{
    String::with_capacity(capacity)
}

/// A formatter for the virtual machine.
///
/// This is used as a receiver to functions implementing the protocols that
/// display and debug-print a value. It holds the text that was written and
/// a scratch buffer.
#[derive(Debug, PartialEq, Eq)]
pub struct Formatter {
    /// The text that was written.
    pub string: String,
    /// A scratch buffer.
    pub buf: String,
}

impl Formatter {
    /// Construct a new empty formatter.
    pub fn new() -> (f: Formatter)
        ensures
            f.string@ == Seq::<char>::empty(),
            f.buf@ == Seq::<char>::empty(),
    {
        Formatter { string: String::new(), buf: String::new() }
    }

    /// An empty formatter with room for `capacity` bytes of text. A
    /// capacity of more than `isize::MAX` bytes is refused.
    pub fn with_capacity(capacity: usize) -> (r: Result<Formatter, Error>)
        ensures
            match r {
                Ok(f) => capacity <= isize::MAX && f.string@ == Seq::<char>::empty() && f.buf@
                    == Seq::<char>::empty(),
                Err(e) => capacity > isize::MAX && e == Error::CapacityOverflow,
            },
    {
        if capacity > isize::MAX as usize {
            return Err(Error::CapacityOverflow);
        }
        Ok(Formatter { string: string_with_capacity(capacity), buf: String::new() })
    }

    /// The text, to write to, and the scratch buffer, to read.
    pub fn parts_mut(&mut self) -> (r: (&mut String, &str))
        ensures
            *r.0 == old(self).string,
            r.1@ == old(self).buf@,
            *final(self) == (Formatter { string: *final(r.0), buf: old(self).buf }),
    {
        (&mut self.string, self.buf.as_str())
    }

    /// The scratch buffer, to write to.
    pub fn buf_mut(&mut self) -> (r: &mut String)
        ensures
            *r == old(self).buf,
            *final(self) == (Formatter { string: old(self).string, buf: *final(r) }),
    {
        &mut self.buf
    }

    /// Writes a character to the text.
    pub fn push(&mut self, c: char) -> (r: Result<(), Error>)
        ensures
            r is Ok,
            final(self).string@ == old(self).string@.push(c),
            final(self).buf == old(self).buf,
    {
        string_push(&mut self.string, c);
        Ok(())
    }

    /// Writes a string to the text.
    pub fn push_str(&mut self, s: &str) -> (r: Result<(), Error>)
        ensures
            r is Ok,
            final(self).string@ == old(self).string@ + s@,
            final(self).buf == old(self).buf,
    {
        push_text(&mut self.string, s);
        Ok(())
    }

    /// The text that was written.
    pub fn into_string(self) -> (s: String)
        ensures
            s == self.string,
    {
        self.string
    }

    /// The text that was written.
    pub fn as_str(&self) -> (s: &str)
        ensures
            s@ == self.string@,
    {
        self.string.as_str()
    }
}

impl Default for Formatter {
    fn default() -> (f: Formatter)
        ensures
            f.string@ == Seq::<char>::empty(),
            f.buf@ == Seq::<char>::empty(),
    {
        Formatter::new()
    }
}

} // verus!
