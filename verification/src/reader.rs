//! The read adapter: bytes are munged on their way out of a source.

use vstd::prelude::*;

use crate::munger::Xorcism;
use crate::stream::KeyStream;
use crate::transport::read_from;

verus! {

/// This implements `Read` and performs xor munging on the data stream.
///
/// Its view is the [`KeyStream`] of the munger it owns.
pub struct Reader<'a, R> {
    xorcism: Xorcism<'a>,
    reader: R,
}

impl<'a, R> View for Reader<'a, R> {
    type V = KeyStream;

    closed spec fn view(&self) -> KeyStream {
        self.xorcism@
    }
}

/// The number of bytes of a buffer of `capacity` bytes that a source filled
/// when it reports `reported`. A source may not report more than the buffer
/// holds; where one does, only the buffer itself can have been filled.
pub open spec fn filled(reported: usize, capacity: nat) -> nat {
    if reported <= capacity {
        reported as nat
    } else {
        capacity
    }
}

impl<'a, R> Reader<'a, R> {
    /// The source that the bytes come from.
    pub closed spec fn source(&self) -> R {
        self.reader
    }

    /// A reader with a fresh munger for `key` behind `reader`.
    pub fn new(key: &'a [u8], reader: R) -> (adapter: Reader<'a, R>)
        requires
            key@.len() > 0,
        ensures
            adapter@ == KeyStream::fresh(key@),
            adapter.source() == reader,
    {
        Reader { xorcism: Xorcism::new(key), reader }
    }

    /// Finishes a read, given what the source made of `buf`.
    ///
    /// Where the source reported a count, that many bytes at the front of
    /// `buf` are munged in place, the rest of `buf` is left alone, and the
    /// count is reported; a count beyond the end of `buf` is cut down to the
    /// length of `buf` first. Where the source failed, nothing is munged and
    /// its error is handed on.
    pub fn absorb(&mut self, buf: &mut [u8], outcome: Result<usize, std::io::Error>) -> (report:
        Result<usize, std::io::Error>)
        ensures
            final(self).source() == old(self).source(),
            match outcome {
                Ok(reported) => {
                    let count: nat = filled(reported, old(buf)@.len());
                    &&& report == Ok::<usize, std::io::Error>(count as usize)
                    &&& final(buf)@ == old(self)@.apply(old(buf)@.take(count as int)) + old(
                        buf,
                    )@.skip(count as int)
                    &&& final(self)@ == old(self)@.advance(count)
                },
                Err(e) => {
                    &&& report == Err::<usize, std::io::Error>(e)
                    &&& final(buf)@ == old(buf)@
                    &&& final(self)@ == old(self)@
                },
            },
    {
        match outcome {
            Ok(reported) => {
                let count: usize = if reported <= buf.len() {
                    reported
                } else {
                    buf.len()
                };
                let (front, _back) = buf.split_at_mut(count);
                self.xorcism.munge_in_place(front);
                Ok(count)
            },
            Err(e) => Err(e),
        }
    }
}

impl<'a> Xorcism<'a> {
    /// Convert this into a [`Reader`], which goes on from where this munger stands.
    pub fn reader<R>(self, reader: R) -> (adapter: Reader<'a, R>)
        ensures
            adapter@ == self@,
            adapter.source() == reader,
    {
        Reader { xorcism: self, reader }
    }
}

impl<'a, R: std::io::Read> std::io::Read for Reader<'a, R> {
    /// Lets the source fill `buf`, then munges in place the bytes it delivered.
    ///
    /// The cursor moves on by the count that is reported; a failed read of the
    /// source munges nothing and leaves the cursor where it was.
    fn read(&mut self, buf: &mut [u8]) -> (report: Result<usize, std::io::Error>)
        ensures
            final(buf)@.len() == old(buf)@.len(),
            match report {
                Ok(count) => count <= old(buf)@.len() && final(self)@ == old(self)@.advance(
                    count as nat,
                ),
                Err(_) => final(self)@ == old(self)@,
            },
    {
        let outcome = read_from(&mut self.reader, buf);
        self.absorb(buf, outcome)
    }
}

impl<'a, R: Clone> Clone for Reader<'a, R> {
    /// The clone's munger stands where the munger of `self` stands.
    fn clone(&self) -> (twin: Self)
        ensures
            twin@ == self@,
            cloned(self.source(), twin.source()),
    {
        Reader { xorcism: self.xorcism.clone(), reader: self.reader.clone() }
    }
}

} // verus!
