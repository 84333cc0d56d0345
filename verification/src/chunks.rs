//! Splitting a byte source into numbered chunks.
//!
//! A source of `total` bytes yields `ceil(total / chunk_size)` chunks:
//! every chunk holds exactly `chunk_size` bytes except the last, which
//! holds the remainder; a zero-length chunk is never produced, and the
//! chunks concatenated in part-number order reproduce the source exactly.

use vstd::arithmetic::div_mod::{lemma_fundamental_div_mod, lemma_fundamental_div_mod_converse};
use vstd::arithmetic::mul::{
    lemma_mul_basics, lemma_mul_inequality, lemma_mul_is_distributive_add_other_way,
    lemma_mul_is_distributive_sub_other_way,
};
use vstd::prelude::*;

verus! {

/// One contiguous byte range of the source.
///
/// `part_number` is 1-based and strictly increasing in the order the
/// ranges appear in the source.
pub struct Chunk {
    pub part_number: usize,
    pub data: Vec<u8>,
}

/// How many chunks a source of `total` bytes yields at `chunk_size`:
/// the quotient of `total / chunk_size`, rounded up.
pub open spec fn chunk_count(total: int, chunk_size: int) -> int
    recommends
        chunk_size > 0,
{
    (total + chunk_size - 1) / chunk_size
}

/// The bytes of the 0-based `i`th chunk of `source`.
pub open spec fn chunk_bytes(source: Seq<u8>, chunk_size: int, i: int) -> Seq<u8>
    recommends
        chunk_size > 0,
        0 <= i < chunk_count(source.len() as int, chunk_size),
{
    if (i + 1) * chunk_size <= source.len() {
        source.subrange(i * chunk_size, (i + 1) * chunk_size)
    } else {
        source.subrange(i * chunk_size, source.len() as int)
    }
}

/// Length of the final chunk: the remainder of the source, or a full
/// chunk when the source divides evenly.
pub open spec fn last_chunk_len(total: int, chunk_size: int) -> int
    recommends
        chunk_size > 0,
        total > 0,
{
    if total % chunk_size == 0 {
        chunk_size
    } else {
        total % chunk_size
    }
}

/// The chunks' bytes, concatenated in the order given.
pub open spec fn concat_chunks(chunks: Seq<Chunk>) -> Seq<u8>
    decreases chunks.len(),
{
    if chunks.len() == 0 {
        Seq::empty()
    } else {
        concat_chunks(chunks.drop_last()) + chunks.last().data@
    }
}

/// A count `k` with `(k - 1) * c < len <= k * c` is `len / c` rounded up.
proof fn lemma_ceil_div_unique(len: int, c: int, k: int)
    requires
        c > 0,
        0 <= len,
        0 <= k,
        len <= k * c,
        (k - 1) * c < len,
    ensures
        k == chunk_count(len, c),
{
    lemma_mul_is_distributive_sub_other_way(c, k, 1);
    lemma_fundamental_div_mod_converse(len + c - 1, c, k, len + c - 1 - k * c);
}

/// The bytes left over past the first `k - 1` full chunks are exactly
/// the remainder of `len` by `c` (or a full chunk when it divides evenly).
proof fn lemma_last_chunk_len(len: int, c: int, k: int)
    requires
        c > 0,
        0 < len,
        len <= k * c,
        (k - 1) * c < len,
        k == chunk_count(len, c),
    ensures
        len - (k - 1) * c == last_chunk_len(len, c),
{
    lemma_fundamental_div_mod(len, c);
    let q = len / c;
    let r = len % c;
    lemma_mul_basics(c);
    lemma_mul_is_distributive_sub_other_way(c, k, 1);
    assert(q * c == c * q) by {
        vstd::arithmetic::mul::lemma_mul_is_commutative(q, c);
    }
    if r == 0 {
        // len + c - 1 == q * c + (c - 1), so the count is q and the
        // last chunk is full.
        lemma_fundamental_div_mod_converse(len + c - 1, c, q, c - 1);
        lemma_mul_is_distributive_sub_other_way(c, q, 1);
    } else {
        // len + c - 1 == (q + 1) * c + (r - 1), so the count is q + 1
        // and the last chunk holds the remainder.
        lemma_mul_is_distributive_add_other_way(c, q, 1);
        lemma_fundamental_div_mod_converse(len + c - 1, c, q + 1, r - 1);
    }
}

/// Split `source` into numbered chunks of `chunk_size` bytes each, the
/// last one shorter when the source does not divide evenly.
///
/// The result has exactly `ceil(len / chunk_size)` chunks, numbered
/// 1 upwards in source order, none empty, each holding its byte range of
/// the source; concatenated in order they reproduce the source exactly.
pub fn split_into_chunks(source: &Vec<u8>, chunk_size: usize) -> (chunks: Vec<Chunk>)
    requires
        chunk_size > 0,
    ensures
        chunks@.len() == chunk_count(source@.len() as int, chunk_size as int),
        forall|i: int|
            0 <= i < chunks@.len() ==> (#[trigger] chunks@[i]).part_number == i + 1,
        forall|i: int|
            0 <= i < chunks@.len() ==> (#[trigger] chunks@[i]).data@ == chunk_bytes(
                source@,
                chunk_size as int,
                i,
            ),
        forall|i: int|
            0 <= i < chunks@.len() ==> 0 < (#[trigger] chunks@[i]).data@.len() <= chunk_size,
        concat_chunks(chunks@) == source@,
        source@.len() > 0 ==> chunks@.last().data@.len() == last_chunk_len(
            source@.len() as int,
            chunk_size as int,
        ),
{
    let len = source.len();
    let ghost c = chunk_size as int;
    let mut chunks: Vec<Chunk> = Vec::new();
    let mut pos: usize = 0;
    proof {
        lemma_mul_basics(c);
    }
    while pos < len
        invariant
            chunk_size > 0,
            c == chunk_size as int,
            pos <= len,
            len == source@.len(),
            if chunks@.len() * c <= len {
                pos == chunks@.len() * c
            } else {
                pos == len
            },
            forall|i: int| 0 <= i < chunks@.len() ==> #[trigger] (i * c) < len,
            forall|i: int|
                0 <= i < chunks@.len() ==> (#[trigger] chunks@[i]).part_number == i + 1,
            forall|i: int|
                0 <= i < chunks@.len() ==> (#[trigger] chunks@[i]).data@ == chunk_bytes(
                    source@,
                    c,
                    i,
                ),
            forall|i: int|
                0 <= i < chunks@.len() ==> 0 < (#[trigger] chunks@[i]).data@.len() <= chunk_size,
            concat_chunks(chunks@) == source@.subrange(0, pos as int),
        decreases len - pos,
    {
        let ghost k = chunks@.len() as int;
        proof {
            // We are mid-source, so every chunk so far was full:
            // pos == k * c, and k fits comfortably below usize::MAX.
            if !(k * c <= len) {
                assert(pos == len);
                assert(false);
            }
            lemma_mul_basics(k);
            lemma_mul_inequality(1, c, k);
            vstd::arithmetic::mul::lemma_mul_is_commutative(c, k);
            assert(k <= pos);
        }
        let remaining = len - pos;
        let take = if remaining < chunk_size {
            remaining
        } else {
            chunk_size
        };
        let end = pos + take;
        let mut data: Vec<u8> = Vec::new();
        let mut j = pos;
        while j < end
            invariant
                pos <= j <= end <= len,
                len == source@.len(),
                data@ == source@.subrange(pos as int, j as int),
            decreases end - j,
        {
            data.push(source[j]);
            proof {
                assert(data@ =~= source@.subrange(pos as int, j + 1));
            }
            j = j + 1;
        }
        let part_number = chunks.len() + 1;
        let ghost prev = chunks@;
        let ghost chunk_view = data@;
        chunks.push(Chunk { part_number, data });
        proof {
            lemma_mul_basics(c);
            lemma_mul_is_distributive_add_other_way(c, k, 1);
            assert(chunks@.drop_last() =~= prev);
            if take == chunk_size {
                assert(chunk_view == chunk_bytes(source@, c, k));
            } else {
                assert(end == len);
                assert(!((k + 1) * c <= len));
                assert(chunk_view == chunk_bytes(source@, c, k));
            }
            assert(concat_chunks(chunks@) == concat_chunks(prev) + chunk_view);
            assert(source@.subrange(0, pos as int) + source@.subrange(pos as int, end as int)
                =~= source@.subrange(0, end as int));
        }
        pos = end;
    }
    proof {
        let k = chunks@.len() as int;
        let l = len as int;
        assert(source@.subrange(0, l) =~= source@);
        lemma_mul_basics(c);
        lemma_mul_is_distributive_sub_other_way(c, k, 1);
        if k * c <= l {
            // Every chunk was full and the source ended on a boundary.
            lemma_ceil_div_unique(l, c, k);
        } else {
            // The final chunk was short: it starts before the end.
            assert(k >= 1);
            assert((k - 1) * c < l);
            lemma_ceil_div_unique(l, c, k);
        }
        if l > 0 {
            assert(k >= 1);
            lemma_last_chunk_len(l, c, k);
            assert(chunks@.last() == chunks@[k - 1]);
        }
    }
    chunks
}

/// Accumulator building one chunk out of sequential reads.
///
/// The application reads from the source into a scratch buffer and
/// hands each read here; when the builder is full, or the source ends
/// with bytes accumulated, the chunk is taken.  A read of zero bytes
/// while the builder is empty signals end of input — that decision
/// stays with the caller, which owns the reads.
pub struct ChunkBuilder {
    buf: Vec<u8>,
    capacity: usize,
}

impl ChunkBuilder {
    /// The accumulated bytes so far.
    pub closed spec fn bytes(self) -> Seq<u8> {
        self.buf@
    }

    /// The fixed chunk size this builder fills up to.
    pub closed spec fn spec_capacity(self) -> int {
        self.capacity as int
    }

    pub closed spec fn wf(self) -> bool {
        self.buf@.len() <= self.capacity && self.capacity > 0
    }

    /// An empty builder for chunks of `capacity` bytes.
    pub fn new(capacity: usize) -> (b: ChunkBuilder)
        requires
            capacity > 0,
        ensures
            b.wf(),
            b.bytes() == Seq::<u8>::empty(),
            b.spec_capacity() == capacity,
    {
        ChunkBuilder { buf: Vec::new(), capacity }
    }

    /// How many more bytes fit before the chunk is full.
    pub fn remaining(&self) -> (r: usize)
        requires
            self.wf(),
        ensures
            r == self.spec_capacity() - self.bytes().len(),
    {
        self.capacity - self.buf.len()
    }

    /// Whether a full chunk has accumulated.
    pub fn is_full(&self) -> (r: bool)
        requires
            self.wf(),
        ensures
            r == (self.bytes().len() == self.spec_capacity()),
    {
        self.buf.len() == self.capacity
    }

    /// Whether nothing has accumulated yet.
    pub fn is_empty(&self) -> (r: bool)
        ensures
            r == (self.bytes().len() == 0),
    {
        self.buf.len() == 0
    }

    /// Append one read's bytes to the chunk under construction.
    pub fn push_read(&mut self, read: &Vec<u8>)
        requires
            old(self).wf(),
            read@.len() <= old(self).spec_capacity() - old(self).bytes().len(),
        ensures
            final(self).wf(),
            final(self).bytes() == old(self).bytes() + read@,
            final(self).spec_capacity() == old(self).spec_capacity(),
    {
        let ghost prev = self.buf@;
        let mut i: usize = 0;
        while i < read.len()
            invariant
                i <= read@.len(),
                self.buf@ == prev + read@.subrange(0, i as int),
                self.capacity == old(self).capacity,
                prev.len() + read@.len() <= self.capacity,
            decreases read@.len() - i,
        {
            self.buf.push(read[i]);
            proof {
                assert(self.buf@ =~= prev + read@.subrange(0, i + 1));
            }
            i = i + 1;
        }
        proof {
            assert(self.buf@ =~= prev + read@);
        }
    }

    /// Take the accumulated bytes as one chunk's data, leaving the
    /// builder empty for the next chunk.
    pub fn take(&mut self) -> (data: Vec<u8>)
        requires
            old(self).wf(),
        ensures
            final(self).wf(),
            data@ == old(self).bytes(),
            final(self).bytes() == Seq::<u8>::empty(),
            final(self).spec_capacity() == old(self).spec_capacity(),
    {
        let mut data: Vec<u8> = Vec::new();
        core::mem::swap(&mut data, &mut self.buf);
        data
    }
}

} // verus!
