use vstd::prelude::*;

verus! {

// Big-endian views of 16-bit and 32-bit integers.
//
// The wire format is big-endian throughout.  These spec functions are the
// single place where the byte-level meaning of multi-byte integers is
// defined; every payload codec states its contract in terms of them.

/// The 16-bit value denoted by a two-byte big-endian sequence.
pub open spec fn be16_of(b: Seq<u8>) -> u16
    recommends
        b.len() == 2,
{
    (b[0] * 0x100 + b[1]) as u16
}

/// The two-byte big-endian encoding of a 16-bit value.
pub open spec fn be16_bytes(x: u16) -> Seq<u8> {
    seq![(x / 0x100) as u8, (x % 0x100) as u8]
}

/// The 32-bit value denoted by a four-byte big-endian sequence.
pub open spec fn be32_of(b: Seq<u8>) -> u32
    recommends
        b.len() == 4,
{
    (b[0] * 0x1000000 + b[1] * 0x10000 + b[2] * 0x100 + b[3]) as u32
}

/// The four-byte big-endian encoding of a 32-bit value.
pub open spec fn be32_bytes(x: u32) -> Seq<u8> {
    seq![
        (x / 0x1000000) as u8,
        ((x / 0x10000) % 0x100) as u8,
        ((x / 0x100) % 0x100) as u8,
        (x % 0x100) as u8,
    ]
}

/// Decoding inverts encoding for 16-bit values.
pub proof fn lemma_be16_round_trip(x: u16)
    ensures
        be16_bytes(x).len() == 2,
        be16_of(be16_bytes(x)) == x,
{
    assert((x / 0x100) * 0x100 + (x % 0x100) == x) by (nonlinear_arith);
}

/// Two-byte sequences are uniquely determined by their 16-bit value.
pub proof fn lemma_be16_injective(b: Seq<u8>, c: Seq<u8>)
    requires
        b.len() == 2,
        c.len() == 2,
        be16_of(b) == be16_of(c),
    ensures
        b =~= c,
{
    assert(b[0] == c[0] && b[1] == c[1]) by (nonlinear_arith)
        requires
            b[0] * 0x100 + b[1] == c[0] * 0x100 + c[1],
            b[0] < 0x100,
            b[1] < 0x100,
            c[0] < 0x100,
            c[1] < 0x100,
    ;
}

/// Decoding inverts encoding for 32-bit values.
pub proof fn lemma_be32_round_trip(x: u32)
    ensures
        be32_bytes(x).len() == 4,
        be32_of(be32_bytes(x)) == x,
{
    assert((x / 0x1000000) * 0x1000000 + ((x / 0x10000) % 0x100) * 0x10000 + ((x / 0x100)
        % 0x100) * 0x100 + (x % 0x100) == x) by (nonlinear_arith);
}

/// Four-byte sequences are uniquely determined by their 32-bit value.
pub proof fn lemma_be32_injective(b: Seq<u8>, c: Seq<u8>)
    requires
        b.len() == 4,
        c.len() == 4,
        be32_of(b) == be32_of(c),
    ensures
        b =~= c,
{
    assert(b[0] == c[0] && b[1] == c[1] && b[2] == c[2] && b[3] == c[3]) by (nonlinear_arith)
        requires
            b[0] * 0x1000000 + b[1] * 0x10000 + b[2] * 0x100 + b[3] == c[0] * 0x1000000 + c[1]
                * 0x10000 + c[2] * 0x100 + c[3],
            b[0] < 0x100,
            b[1] < 0x100,
            b[2] < 0x100,
            b[3] < 0x100,
            c[0] < 0x100,
            c[1] < 0x100,
            c[2] < 0x100,
            c[3] < 0x100,
    ;
}

/// A byte source backed by a caller-owned slice.
///
/// Reading never copies more than requested and never looks past the end
/// of the slice; the current position records how many bytes have been
/// consumed so far.
pub struct ByteReader<'a> {
    data: &'a [u8],
    pos: usize,
}

impl<'a> ByteReader<'a> {
    /// The whole underlying byte sequence.
    pub closed spec fn bytes(self) -> Seq<u8> {
        self.data@
    }

    /// How many bytes have been consumed so far.
    pub closed spec fn position(self) -> int {
        self.pos as int
    }

    /// The position never runs past the end of the data.
    pub open spec fn wf(self) -> bool {
        0 <= self.position() <= self.bytes().len()
    }

    /// The next `n` bytes from the current position.
    pub open spec fn taken(self, n: int) -> Seq<u8> {
        self.bytes().subrange(self.position(), self.position() + n)
    }

    /// A reader starting at the beginning of `data`.
    pub fn new(data: &'a [u8]) -> (r: ByteReader<'a>)
        ensures
            r.wf(),
            r.bytes() == data@,
            r.position() == 0,
    {
        ByteReader { data, pos: 0 }
    }

    /// Number of bytes not yet consumed.
    pub fn remaining(&self) -> (n: usize)
        requires
            self.wf(),
        ensures
            n == self.bytes().len() - self.position(),
    {
        self.data.len() - self.pos
    }

    /// Consume one byte.
    pub fn read_u8(&mut self) -> (r: u8)
        requires
            old(self).wf(),
            old(self).position() + 1 <= old(self).bytes().len(),
        ensures
            final(self).wf(),
            final(self).bytes() == old(self).bytes(),
            final(self).position() == old(self).position() + 1,
            r == old(self).bytes()[old(self).position()],
    {
        let b = self.data[self.pos];
        self.pos = self.pos + 1;
        b
    }

    /// Consume two bytes as a big-endian 16-bit value.
    pub fn read_u16_be(&mut self) -> (r: u16)
        requires
            old(self).wf(),
            old(self).position() + 2 <= old(self).bytes().len(),
        ensures
            final(self).wf(),
            final(self).bytes() == old(self).bytes(),
            final(self).position() == old(self).position() + 2,
            r == be16_of(old(self).bytes().subrange(old(self).position(), old(self).position() + 2)),
    {
        let b0 = self.data[self.pos];
        let b1 = self.data[self.pos + 1];
        self.pos = self.pos + 2;
        let r = (b0 as u16) * 0x100 + (b1 as u16);
        proof {
            let s = old(self).bytes().subrange(old(self).position(), old(self).position() + 2);
            assert(s[0] == b0 && s[1] == b1);
        }
        r
    }

    /// Consume four bytes as a big-endian 32-bit value.
    pub fn read_u32_be(&mut self) -> (r: u32)
        requires
            old(self).wf(),
            old(self).position() + 4 <= old(self).bytes().len(),
        ensures
            final(self).wf(),
            final(self).bytes() == old(self).bytes(),
            final(self).position() == old(self).position() + 4,
            r == be32_of(old(self).bytes().subrange(old(self).position(), old(self).position() + 4)),
    {
        let b0 = self.data[self.pos];
        let b1 = self.data[self.pos + 1];
        let b2 = self.data[self.pos + 2];
        let b3 = self.data[self.pos + 3];
        self.pos = self.pos + 4;
        let r = (b0 as u32) * 0x1000000 + (b1 as u32) * 0x10000 + (b2 as u32) * 0x100 + (b3
            as u32);
        proof {
            let s = old(self).bytes().subrange(old(self).position(), old(self).position() + 4);
            assert(s[0] == b0 && s[1] == b1 && s[2] == b2 && s[3] == b3);
        }
        r
    }

    /// Consume `n` bytes into a fresh vector.
    pub fn read_vec(&mut self, n: usize) -> (r: Vec<u8>)
        requires
            old(self).wf(),
            old(self).position() + n <= old(self).bytes().len(),
        ensures
            final(self).wf(),
            final(self).bytes() == old(self).bytes(),
            final(self).position() == old(self).position() + n,
            r@ =~= old(self).bytes().subrange(old(self).position(), old(self).position() + n),
    {
        let slice_len = self.data.len();
        proof {
            assert(slice_len == old(self).bytes().len());
            assert(old(self).bytes().len() <= usize::MAX);
        }
        let mut r: Vec<u8> = Vec::new();
        let mut i: usize = 0;
        while i < n
            invariant
                self.wf(),
                self.bytes() == old(self).bytes(),
                self.position() == old(self).position(),
                old(self).position() + n <= old(self).bytes().len(),
                old(self).position() + n <= usize::MAX,
                i <= n,
                r@ =~= old(self).bytes().subrange(
                    old(self).position(),
                    old(self).position() + i,
                ),
            decreases n - i,
        {
            r.push(self.data[self.pos + i]);
            i = i + 1;
        }
        self.pos = self.pos + n;
        r
    }

    /// Consume `N` bytes into a fixed-size array.
    pub fn read_array<const N: usize>(&mut self) -> (r: [u8; N])
        requires
            old(self).wf(),
            old(self).position() + N <= old(self).bytes().len(),
        ensures
            final(self).wf(),
            final(self).bytes() == old(self).bytes(),
            final(self).position() == old(self).position() + N,
            r@ =~= old(self).taken(N as int),
    {
        let slice_len = self.data.len();
        proof {
            assert(slice_len == old(self).bytes().len());
            assert(old(self).bytes().len() <= usize::MAX);
        }
        let mut r: [u8; N] = vstd::array::array_fill_for_copy_types(0u8);
        let mut i: usize = 0;
        while i < N
            invariant
                self.wf(),
                self.bytes() == old(self).bytes(),
                self.position() == old(self).position(),
                old(self).position() + N <= old(self).bytes().len(),
                old(self).position() + N <= usize::MAX,
                i <= N,
                r@.len() == N,
                forall|j: int|
                    0 <= j < i ==> r@[j] == old(self).bytes()[old(self).position() + j],
            decreases N - i,
        {
            r[i] = self.data[self.pos + i];
            i = i + 1;
        }
        self.pos = self.pos + N;
        r
    }

    /// Consume `n` bytes into an existing vector, replacing its contents.
    pub fn read_replace_vec(&mut self, buf: &mut Vec<u8>, n: usize)
        requires
            old(self).wf(),
            old(self).position() + n <= old(self).bytes().len(),
        ensures
            final(self).wf(),
            final(self).bytes() == old(self).bytes(),
            final(self).position() == old(self).position() + n,
            final(buf)@ =~= old(self).bytes().subrange(old(self).position(), old(self).position() + n),
    {
        let slice_len = self.data.len();
        proof {
            assert(slice_len == old(self).bytes().len());
            assert(old(self).bytes().len() <= usize::MAX);
        }
        buf.clear();
        let mut i: usize = 0;
        while i < n
            invariant
                self.wf(),
                self.bytes() == old(self).bytes(),
                self.position() == old(self).position(),
                old(self).position() + n <= old(self).bytes().len(),
                old(self).position() + n <= usize::MAX,
                i <= n,
                buf@ =~= old(self).bytes().subrange(
                    old(self).position(),
                    old(self).position() + i,
                ),
            decreases n - i,
        {
            buf.push(self.data[self.pos + i]);
            i = i + 1;
        }
        self.pos = self.pos + n;
    }

    /// The unread remainder of the underlying slice.
    pub fn rest(&self) -> (r: &'a [u8])
        requires
            self.wf(),
        ensures
            r@ == self.bytes().subrange(self.position(), self.bytes().len() as int),
    {
        vstd::slice::slice_subrange(self.data, self.pos, self.data.len())
    }
}

/// Append the big-endian encoding of a 16-bit value to a sink.
pub fn put_u16_be(sink: &mut Vec<u8>, x: u16)
    ensures
        final(sink)@ =~= old(sink)@ + be16_bytes(x),
{
    sink.push((x / 0x100) as u8);
    sink.push((x % 0x100) as u8);
}

/// Append the big-endian encoding of a 32-bit value to a sink.
pub fn put_u32_be(sink: &mut Vec<u8>, x: u32)
    ensures
        final(sink)@ =~= old(sink)@ + be32_bytes(x),
{
    sink.push((x / 0x1000000) as u8);
    sink.push(((x / 0x10000) % 0x100) as u8);
    sink.push(((x / 0x100) % 0x100) as u8);
    sink.push((x % 0x100) as u8);
}

/// Append a byte slice to a sink.
pub fn put_bytes(sink: &mut Vec<u8>, b: &[u8])
    ensures
        final(sink)@ =~= old(sink)@ + b@,
{
    let mut i: usize = 0;
    while i < b.len()
        invariant
            i <= b@.len(),
            sink@ =~= old(sink)@ + b@.subrange(0, i as int),
        decreases b@.len() - i,
    {
        sink.push(b[i]);
        i = i + 1;
    }
}

} // verus!
