//! Spec-level view of a stream's payload: a sequence of chunks and its
//! concatenation into the byte order the peer observes.

use vstd::prelude::*;

verus! {

/// The bytes the peer observes when the given chunks are delivered in
/// order: their concatenation.
pub open spec fn concat_chunks(chunks: Seq<Seq<u8>>) -> Seq<u8>
    decreases chunks.len(),
{
    if chunks.len() == 0 {
        Seq::<u8>::empty()
    } else {
        chunks.first() + concat_chunks(chunks.drop_first())
    }
}

/// The views of a vector of byte chunks.
pub open spec fn chunk_views(chunks: Seq<Vec<u8>>) -> Seq<Seq<u8>> {
    chunks.map_values(|c: Vec<u8>| c@)
}

/// Appending one more chunk appends its bytes to the concatenation.
pub proof fn lemma_concat_chunks_push(chunks: Seq<Seq<u8>>, c: Seq<u8>)
    ensures
        concat_chunks(chunks.push(c)) == concat_chunks(chunks) + c,
    decreases chunks.len(),
{
    if chunks.len() == 0 {
        assert(chunks.push(c).drop_first() =~= Seq::<Seq<u8>>::empty());
        assert(chunks.push(c).first() == c);
        assert(concat_chunks(Seq::<Seq<u8>>::empty()) == Seq::<u8>::empty());
        assert(concat_chunks(chunks.push(c)) == c + Seq::<u8>::empty());
        assert(c + Seq::<u8>::empty() =~= Seq::<u8>::empty() + c);
    } else {
        assert(chunks.push(c).drop_first() =~= chunks.drop_first().push(c));
        assert(chunks.push(c).first() == chunks.first());
        lemma_concat_chunks_push(chunks.drop_first(), c);
        assert(concat_chunks(chunks.push(c)) == chunks.first() + (concat_chunks(
            chunks.drop_first(),
        ) + c));
        assert(chunks.first() + (concat_chunks(chunks.drop_first()) + c) =~= (chunks.first()
            + concat_chunks(chunks.drop_first())) + c);
    }
}

/// A fresh vector holding exactly the bytes of `src`, in order.
pub fn copy_bytes(src: &Vec<u8>) -> (r: Vec<u8>)
    ensures
        r@ == src@,
{
    let mut r: Vec<u8> = Vec::new();
    append_bytes(&mut r, src);
    proof {
        assert(r@ =~= src@);
    }
    r
}

/// Appends the bytes of `src` to `dst`, in order.
pub fn append_bytes(dst: &mut Vec<u8>, src: &Vec<u8>)
    ensures
        final(dst)@ == old(dst)@ + src@,
{
    let n = src.len();
    let ghost dst0 = dst@;
    let mut k: usize = 0;
    while k < n
        invariant
            k <= n,
            n == src@.len(),
            dst@ == dst0 + src@.subrange(0, k as int),
        decreases n - k,
    {
        dst.push(src[k]);
        proof {
            assert(src@.subrange(0, k + 1 as int) =~= src@.subrange(0, k as int).push(
                src@[k as int],
            ));
        }
        k = k + 1;
    }
    proof {
        assert(src@.subrange(0, n as int) =~= src@);
    }
}

} // verus!
