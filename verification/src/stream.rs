//! The mathematical model: a key repeated without end, and a position in it.

use vstd::prelude::*;

verus! {

/// A position in the endless repetition of a key.
///
/// `pos` counts the bytes that have been consumed so far; the key byte that
/// applies `i` bytes further on is `key[(pos + i) mod key.len()]`. The model is
/// meaningful for a non-empty key.
pub struct KeyStream {
    pub key: Seq<u8>,
    pub pos: nat,
}

impl KeyStream {
    /// The stream of `key` before any byte has been consumed.
    pub open spec fn fresh(key: Seq<u8>) -> KeyStream {
        KeyStream { key, pos: 0 }
    }

    /// The key byte that meets the `i`-th byte of the next input.
    pub open spec fn byte_at(self, i: int) -> u8 {
        self.key[(self.pos + i) % (self.key.len() as int)]
    }

    /// `data` with each byte XORed with the key byte that meets it.
    pub open spec fn apply(self, data: Seq<u8>) -> Seq<u8> {
        Seq::new(data.len(), |i: int| data[i] ^ self.byte_at(i))
    }

    /// The same key, `n` bytes further on.
    pub open spec fn advance(self, n: nat) -> KeyStream {
        KeyStream { key: self.key, pos: self.pos + n }
    }

    /// What comes of `pieces` handed over one after another: each piece is
    /// munged from where the piece before it left the cursor, and the results
    /// are joined in order.
    pub open spec fn apply_each(self, pieces: Seq<Seq<u8>>) -> Seq<u8>
        decreases pieces.len(),
    {
        if pieces.len() == 0 {
            Seq::empty()
        } else {
            self.apply(pieces.first()) + self.advance(pieces.first().len()).apply_each(
                pieces.drop_first(),
            )
        }
    }
}

/// XOR with the same byte twice gives the first byte back.
proof fn lemma_xor_cancels(x: u8, k: u8)
    ensures
        (x ^ k) ^ k == x,
{
    assert((x ^ k) ^ k == x) by (bit_vector);
}

/// XOR with zero changes nothing.
proof fn lemma_xor_zero(x: u8)
    ensures
        x ^ 0u8 == x,
{
    assert(x ^ 0u8 == x) by (bit_vector);
}

/// XOR with two bytes gives the same result exactly when the two bytes are equal.
proof fn lemma_xor_injective(x: u8, j: u8, k: u8)
    ensures
        (x ^ j == x ^ k) <==> j == k,
{
    assert((x ^ j == x ^ k) <==> j == k) by (bit_vector);
}

/// Munging never changes the length of the data.
pub proof fn law_length(s: KeyStream, data: Seq<u8>)
    ensures
        s.apply(data).len() == data.len(),
{
}

/// A key of one zero byte leaves every input as it is, wherever the cursor stands.
pub proof fn law_zero_key_is_identity(s: KeyStream, data: Seq<u8>)
    requires
        s.key == seq![0u8],
    ensures
        s.apply(data) == data,
{
    assert forall|i: int| 0 <= i < data.len() implies #[trigger] s.apply(data)[i] == data[i] by {
        assert((s.pos + i) % 1 == 0);
        assert(s.byte_at(i) == 0u8);
        lemma_xor_zero(data[i]);
    }
    assert(s.apply(data) =~= data);
}

/// Munging is its own inverse: applied twice from the same position, it gives
/// the input back.
pub proof fn law_apply_twice_is_identity(s: KeyStream, data: Seq<u8>)
    ensures
        s.apply(s.apply(data)) == data,
{
    assert forall|i: int| 0 <= i < data.len() implies #[trigger] s.apply(s.apply(data))[i]
        == data[i] by {
        lemma_xor_cancels(data[i], s.byte_at(i));
    }
    assert(s.apply(s.apply(data)) =~= data);
}

/// What one fresh munger made of `data`, a second fresh munger with the same
/// key turns back into `data`.
pub proof fn law_round_trip(key: Seq<u8>, data: Seq<u8>)
    requires
        key.len() > 0,
    ensures
        KeyStream::fresh(key).apply(KeyStream::fresh(key).apply(data)) == data,
{
    law_apply_twice_is_identity(KeyStream::fresh(key), data);
}

/// Munging `first` and then `second` gives, piece by piece, what munging their
/// concatenation in one go gives, and leaves the cursor in the same place.
pub proof fn law_chunking(s: KeyStream, first: Seq<u8>, second: Seq<u8>)
    ensures
        s.apply(first + second) == s.apply(first) + s.advance(first.len()).apply(second),
        s.advance((first + second).len()) == s.advance(first.len()).advance(second.len()),
{
    let whole = s.apply(first + second);
    let pieces = s.apply(first) + s.advance(first.len()).apply(second);
    assert forall|i: int| 0 <= i < whole.len() implies #[trigger] whole[i] == pieces[i] by {
        if i >= first.len() {
            let j: int = i - first.len();
            assert(s.advance(first.len()).byte_at(j) == s.byte_at(i));
        }
    }
    assert(whole =~= pieces);
}

/// A stream handed over in pieces of any sizes comes out as it would have
/// come out in one piece.
pub proof fn law_streaming(s: KeyStream, pieces: Seq<Seq<u8>>)
    ensures
        s.apply_each(pieces) == s.apply(pieces.flatten()),
    decreases pieces.len(),
{
    if pieces.len() == 0 {
        assert(s.apply(Seq::<u8>::empty()) =~= Seq::<u8>::empty());
    } else {
        let first = pieces.first();
        let rest = pieces.drop_first();
        law_streaming(s.advance(first.len()), rest);
        law_chunking(s, first, rest.flatten());
    }
}

/// Two layers with one key whose cursors stand at the same place cancel each
/// other out: what the second makes of what the first made of `data` is
/// `data`, and afterwards the two cursors stand at the same place again.
pub proof fn law_layers_cancel(outer: KeyStream, inner: KeyStream, data: Seq<u8>)
    requires
        outer == inner,
    ensures
        inner.apply(outer.apply(data)) == data,
        outer.advance(data.len()) == inner.advance(outer.apply(data).len()),
{
    law_apply_twice_is_identity(outer, data);
}

/// Munging the same data twice in a row on one munger gives two different
/// outputs exactly when the key bytes under the second pass differ somewhere
/// from those under the first.
pub proof fn law_second_pass_differs(s: KeyStream, data: Seq<u8>)
    ensures
        s.apply(data) != s.advance(data.len()).apply(data) <==> exists|i: int|
            0 <= i < data.len() && #[trigger] s.byte_at(i) != s.advance(data.len()).byte_at(i),
{
    let t = s.advance(data.len());
    if exists|i: int| 0 <= i < data.len() && #[trigger] s.byte_at(i) != t.byte_at(i) {
        let i: int = choose|i: int| 0 <= i < data.len() && #[trigger] s.byte_at(i) != t.byte_at(i);
        lemma_xor_injective(data[i], s.byte_at(i), t.byte_at(i));
        assert(s.apply(data)[i] != t.apply(data)[i]);
    } else {
        assert forall|i: int| 0 <= i < data.len() implies #[trigger] s.apply(data)[i] == t.apply(
            data,
        )[i] by {
            assert(s.byte_at(i) == t.byte_at(i));
        }
        assert(s.apply(data) =~= t.apply(data));
    }
}

} // verus!
