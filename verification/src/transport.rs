//! The calls into `std::io` that the adapters make.
//!
//! Nothing here is proved: each item states what is taken on trust about the
//! standard library, and that is very little, since what a sink or a source
//! does is its own affair.

use vstd::prelude::*;

verus! {

/// `std::io::Error`, which the adapters hand on unopened.
#[verifier::external_type_specification]
#[verifier::external_body]
pub struct ExIoError(std::io::Error);

/// Calls `std::io::Write::write_all` on `sink` with `data`. Whether the sink
/// accepts the bytes is for the sink to decide, so nothing is claimed of the
/// outcome.
#[verifier::external_body]
pub(crate) fn write_all_to<W: std::io::Write>(sink: &mut W, data: &[u8]) -> (outcome: Result<
    (),
    std::io::Error,
>) {
    sink.write_all(data)
}

/// Calls `std::io::Write::flush` on `sink`. Nothing is claimed of the outcome.
#[verifier::external_body]
pub(crate) fn flush_of<W: std::io::Write>(sink: &mut W) -> (outcome: Result<(), std::io::Error>) {
    sink.flush()
}

/// Calls `std::io::Read::read` on `source` with `buf`. The only claim is that
/// `buf` is as long afterwards as it was before, which holds of every slice;
/// what the source put into it, and what count it reports, is left open.
#[verifier::external_body]
pub(crate) fn read_from<R: std::io::Read>(source: &mut R, buf: &mut [u8]) -> (outcome: Result<
    usize,
    std::io::Error,
>)
    ensures
        final(buf)@.len() == old(buf)@.len(),
{
    source.read(buf)
}

} // verus!
