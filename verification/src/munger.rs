//! The munger itself: a borrowed key and a cursor.

use vstd::prelude::*;
use vstd::slice::slice_to_vec;

use crate::stream::KeyStream;

verus! {

/// A munger which XORs a key with some data.
///
/// The munger is stateful: it remembers how many bytes it has munged, so that
/// a stream may be handed to it in pieces of any size. Its view is the
/// [`KeyStream`] it stands at.
pub struct Xorcism<'a> {
    key: &'a [u8],
    /// Index into `key` of the byte that meets the next input byte.
    offset: usize,
    /// The number of bytes munged so far. It is unbounded, so it is kept in
    /// ghost state; at run time `offset` is all that is needed of it.
    total: Ghost<nat>,
}

impl<'a> View for Xorcism<'a> {
    type V = KeyStream;

    closed spec fn view(&self) -> KeyStream {
        KeyStream { key: self.key@, pos: self.total@ }
    }
}

/// Stepping an index through a key of `len` bytes, and back to the start at
/// its end, follows the stream position modulo `len`.
proof fn lemma_step(pos: int, len: int)
    requires
        0 <= pos,
        0 < len,
    ensures
        (pos + 1) % len == if pos % len + 1 == len {
            0
        } else {
            pos % len + 1
        },
{
    vstd::arithmetic::div_mod::lemma_add_mod_noop(pos, 1, len);
    vstd::arithmetic::div_mod::lemma_mod_self_0(len);
    if len > 1 {
        vstd::arithmetic::div_mod::lemma_small_mod(1, len as nat);
        if pos % len + 1 < len {
            vstd::arithmetic::div_mod::lemma_small_mod((pos % len + 1) as nat, len as nat);
        }
    }
}

impl<'a> Xorcism<'a> {
    #[verifier::type_invariant]
    spec fn well_formed(self) -> bool {
        &&& self.key@.len() > 0
        &&& self.offset == self.total@ % self.key@.len()
    }

    /// Create a new munger from a key, with its cursor at the start.
    pub fn new(key: &'a [u8]) -> (munger: Xorcism<'a>)
        requires
            key@.len() > 0,
        ensures
            munger@ == KeyStream::fresh(key@),
    {
        assert(0nat % key@.len() == 0) by (nonlinear_arith)
            requires
                key@.len() > 0,
        ;
        Xorcism { key, offset: 0, total: Ghost(0) }
    }

    /// Create a new munger from a key that may be empty: an empty key is
    /// refused, since it has no byte to XOR with.
    pub fn try_new(key: &'a [u8]) -> (munger: Option<Xorcism<'a>>)
        ensures
            key@.len() == 0 <==> munger is None,
            munger matches Some(m) ==> m@ == KeyStream::fresh(key@),
    {
        if key.len() == 0 {
            None
        } else {
            Some(Xorcism::new(key))
        }
    }

    /// XOR each byte of the input buffer with a byte from the key.
    ///
    /// Note that this is stateful: repeated calls are likely to produce
    /// different results, even with identical inputs.
    pub fn munge_in_place(&mut self, data: &mut [u8])
        ensures
            final(data)@ == old(self)@.apply(old(data)@),
            final(self)@ == old(self)@.advance(old(data)@.len()),
    {
        proof {
            use_type_invariant(&*self);
        }
        let key = self.key;
        let ghost start = self@;
        let n: usize = data.len();
        let mut offset: usize = self.offset;
        let mut i: usize = 0;
        while i < n
            invariant
                start.key == key@,
                key@.len() > 0,
                i <= n,
                data@.len() == n,
                old(data)@.len() == n,
                offset == (start.pos + i) % (key@.len() as int),
                forall|j: int| 0 <= j < i ==> #[trigger] data@[j] == old(data)@[j] ^ start.byte_at(j),
                forall|j: int| i <= j < n ==> #[trigger] data@[j] == old(data)@[j],
            decreases n - i,
        {
            proof {
                lemma_step(start.pos + i, key@.len() as int);
            }
            data[i] = data[i] ^ key[offset];
            offset = if offset + 1 == key.len() {
                0
            } else {
                offset + 1
            };
            i += 1;
        }
        *self = Xorcism { key, offset, total: Ghost(start.pos + n as nat) };
        assert(data@ =~= start.apply(old(data)@));
    }

    /// XOR each byte of the data with a byte from the key, into a new vector.
    ///
    /// Note that this is stateful: repeated calls are likely to produce
    /// different results, even with identical inputs.
    pub fn munge(&mut self, data: &[u8]) -> (munged: Vec<u8>)
        ensures
            munged@ == old(self)@.apply(data@),
            final(self)@ == old(self)@.advance(data@.len()),
    {
        let mut munged: Vec<u8> = slice_to_vec(data);
        self.munge_in_place(munged.as_mut_slice());
        munged
    }
}

impl<'a> Clone for Xorcism<'a> {
    /// The clone stands where `self` stands, and moves on its own from there.
    fn clone(&self) -> (twin: Self)
        ensures
            twin@ == self@,
    {
        proof {
            use_type_invariant(self);
        }
        Xorcism { key: self.key, offset: self.offset, total: Ghost(self.total@) }
    }
}

/// XOR each byte of `data` with a byte of `key`, looping `key` as required.
///
/// This is stateless: repeated calls with identical inputs will always produce
/// identical results.
pub fn munge(key: &[u8], data: &[u8]) -> (munged: Vec<u8>)
    requires
        key@.len() > 0,
    ensures
        munged@ == KeyStream::fresh(key@).apply(data@),
{
    let mut xorcism = Xorcism::new(key);
    xorcism.munge(data)
}

} // verus!
