//! Audio source: turns each read of the input into a chunk or the end of input.
use vstd::prelude::*;
use vstd::slice::slice_subrange;
use vstd::slice::slice_to_vec;

verus! {

/// Size of the block that one read of the input fills at most.
pub const BLOCK_SIZE: usize = 8192;

/// How many chunks the audio channel holds before the source waits.
pub const AUDIO_CHANNEL_CAPACITY: usize = 128;

/// What one read of `n` bytes into `buffer` gives: `None` when nothing was
/// read (the input is exhausted), else the bytes read, as one chunk.
pub fn chunk_from_read(buffer: &[u8], n: usize) -> (r: Option<Vec<u8>>)
    requires
        n <= buffer@.len(),
    ensures
        r is None <==> n == 0,
        r matches Some(c) ==> c@ == buffer@.subrange(0, n as int),
{
    if n == 0 {
        None
    } else {
        let part = slice_subrange(buffer, 0, n);
        Some(slice_to_vec(part))
    }
}

/// The chunks that a run of reads hands on: the results of the reads up to
/// the first empty one, in the order they were read.
pub open spec fn chunks_read(reads: Seq<Seq<u8>>) -> Seq<Seq<u8>>
    decreases reads.len(),
{
    if reads.len() == 0 || reads[0].len() == 0 {
        seq![]
    } else {
        seq![reads[0]] + chunks_read(reads.drop_first())
    }
}

/// The chunks handed on are the reads themselves, in order, up to the first
/// empty read: each of them non-empty, and nothing after that read.
pub proof fn lemma_chunks_are_leading_reads(reads: Seq<Seq<u8>>)
    ensures
        chunks_read(reads).len() <= reads.len(),
        chunks_read(reads).len() < reads.len() ==> reads[chunks_read(reads).len() as int].len() == 0,
        forall|i: int|
            0 <= i < chunks_read(reads).len() ==> #[trigger] chunks_read(reads)[i] == reads[i]
                && reads[i].len() > 0,
    decreases reads.len(),
{
    if reads.len() > 0 && reads[0].len() > 0 {
        let rest = reads.drop_first();
        lemma_chunks_are_leading_reads(rest);
        assert forall|i: int| 0 <= i < chunks_read(reads).len() implies #[trigger] chunks_read(
            reads,
        )[i] == reads[i] && reads[i].len() > 0 by {
            if i > 0 {
                assert(chunks_read(reads)[i] == chunks_read(rest)[i - 1]);
            }
        }
    }
}

} // verus!
