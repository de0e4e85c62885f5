//! Repeating-key XOR over byte streams.
//!
//! A [`Xorcism`] holds a key and a cursor into the endless repetition of that
//! key. Every byte it is given is XORed with the key byte under the cursor, and
//! the cursor moves on by one. [`Writer`] and [`Reader`] put such a munger in
//! front of a byte sink or behind a byte source; [`munge`] is the one-shot form.
//!
//! The mathematical model of all of this is [`KeyStream`], and the laws that
//! the transformation obeys are proved about it in the `stream` module.

pub mod cli;
pub mod munger;
pub mod reader;
pub mod stream;
mod transport;
pub mod writer;

pub use munger::{munge, Xorcism};
pub use reader::Reader;
pub use stream::KeyStream;
pub use writer::Writer;
