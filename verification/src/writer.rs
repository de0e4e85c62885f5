//! The write adapter: bytes are munged on their way into a sink.

use vstd::prelude::*;

use crate::munger::Xorcism;
use crate::stream::KeyStream;
use crate::transport::{flush_of, write_all_to};

verus! {

/// This implements `Write` and performs xor munging on the data stream.
///
/// Its view is the [`KeyStream`] of the munger it owns.
pub struct Writer<'a, W> {
    xorcism: Xorcism<'a>,
    writer: W,
}

impl<'a, W> View for Writer<'a, W> {
    type V = KeyStream;

    closed spec fn view(&self) -> KeyStream {
        self.xorcism@
    }
}

impl<'a, W> Writer<'a, W> {
    /// The sink that the munged bytes go to.
    pub closed spec fn sink(&self) -> W {
        self.writer
    }

    /// A writer with a fresh munger for `key` in front of `writer`.
    pub fn new(key: &'a [u8], writer: W) -> (adapter: Writer<'a, W>)
        requires
            key@.len() > 0,
        ensures
            adapter@ == KeyStream::fresh(key@),
            adapter.sink() == writer,
    {
        Writer { xorcism: Xorcism::new(key), writer }
    }
}

impl<'a> Xorcism<'a> {
    /// Convert this into a [`Writer`], which goes on from where this munger stands.
    pub fn writer<W>(self, writer: W) -> (adapter: Writer<'a, W>)
        ensures
            adapter@ == self@,
            adapter.sink() == writer,
    {
        Writer { xorcism: self, writer }
    }
}

/// What a write of `len` bytes reports, given how the sink took the munged
/// bytes: all of them written, or the sink's own error.
pub fn written(outcome: Result<(), std::io::Error>, len: usize) -> (report: Result<
    usize,
    std::io::Error,
>)
    ensures
        report == match outcome {
            Ok(_) => Ok::<usize, std::io::Error>(len),
            Err(e) => Err::<usize, std::io::Error>(e),
        },
{
    match outcome {
        Ok(_) => Ok(len),
        Err(e) => Err(e),
    }
}

impl<'a, W: std::io::Write> std::io::Write for Writer<'a, W> {
    /// Munges `data` and hands all of it to the sink.
    ///
    /// The cursor moves on by the length of `data` whether or not the sink
    /// accepts the bytes. A success always reports the whole of `data` as
    /// written.
    fn write(&mut self, data: &[u8]) -> (report: Result<usize, std::io::Error>)
        ensures
            final(self)@ == old(self)@.advance(data@.len()),
            report matches Ok(n) ==> n == data@.len(),
    {
        let munged = self.xorcism.munge(data);
        let outcome = write_all_to(&mut self.writer, munged.as_slice());
        written(outcome, data.len())
    }

    /// Flushes the sink. The munger is not touched.
    fn flush(&mut self) -> (report: Result<(), std::io::Error>)
        ensures
            final(self)@ == old(self)@,
    {
        flush_of(&mut self.writer)
    }
}

impl<'a, W: Clone> Clone for Writer<'a, W> {
    /// The clone's munger stands where the munger of `self` stands.
    fn clone(&self) -> (twin: Self)
        ensures
            twin@ == self@,
            cloned(self.sink(), twin.sink()),
    {
        Writer { xorcism: self.xorcism.clone(), writer: self.writer.clone() }
    }
}

} // verus!
