//! Bounded chunk-transfer semantics.
//!
//! One relay invocation moves at most one pipe-buffer-sized chunk between a
//! source and a destination, and a zero-length result means end-of-stream on
//! the source.  The kernel's zero-copy path and the buffered fallback both
//! follow the same contract; `copy_chunk` is the buffered form, verified
//! here, and `classify_outcome` translates a raw transfer result (byte count
//! or negative error) into the outcome the relay loop acts on.

use vstd::prelude::*;

verus! {

/// Upper bound on the bytes moved by one transfer invocation, the size of
/// one pipe-buffer unit.
pub const CHUNK_LIMIT: usize = 4096;

/// What one transfer invocation came to: some bytes moved, end-of-stream on
/// the source, or a failure carrying the operating-system error code.
#[derive(Clone, Copy, Debug, PartialEq, Eq, Structural)]
pub enum TransferOutcome {
    Moved(usize),
    EndOfStream,
    Failed(i32),
}

/// Translates a raw transfer result into an outcome: a positive count is
/// that many bytes moved, zero is end-of-stream, and a negative result is a
/// failure carrying `errno`.
pub fn classify_outcome(result: isize, errno: i32) -> (out: TransferOutcome)
    ensures
        result > 0 ==> out == TransferOutcome::Moved(result as usize),
        result == 0 ==> out == TransferOutcome::EndOfStream,
        result < 0 ==> out == TransferOutcome::Failed(errno),
{
    if result > 0 {
        TransferOutcome::Moved(result as usize)
    } else if result == 0 {
        TransferOutcome::EndOfStream
    } else {
        TransferOutcome::Failed(errno)
    }
}

/// Length of the chunk that one invocation moves when the source holds
/// `len` bytes and `pos` of them have already been moved.
pub open spec fn chunk_len(len: nat, pos: nat) -> nat
    recommends
        pos <= len,
{
    if len - pos < CHUNK_LIMIT {
        (len - pos) as nat
    } else {
        CHUNK_LIMIT as nat
    }
}

/// Moves one bounded chunk from `src` (starting at `pos`) onto the end of
/// `dst` and returns the number of bytes moved.  A zero return means `pos`
/// is already at the end of the source: end-of-stream.
pub fn copy_chunk(src: &Vec<u8>, pos: usize, dst: &mut Vec<u8>) -> (n: usize)
    requires
        pos <= src@.len(),
    ensures
        n == chunk_len(src@.len(), pos as nat),
        n <= CHUNK_LIMIT,
        pos + n <= src@.len(),
        final(dst)@ == old(dst)@ + src@.subrange(pos as int, pos + n),
        n == 0 <==> pos == src@.len(),
{
    let remaining = src.len() - pos;
    let n = if remaining < CHUNK_LIMIT {
        remaining
    } else {
        CHUNK_LIMIT
    };
    let mut i: usize = 0;
    while i < n
        invariant
            i <= n,
            pos + n <= src@.len(),
            src@.len() <= usize::MAX,
            dst@ == old(dst)@ + src@.subrange(pos as int, pos + i),
        decreases n - i,
    {
        dst.push(src[pos + i]);
        proof {
            assert(dst@ =~= old(dst)@ + src@.subrange(pos as int, pos + i + 1));
        }
        i = i + 1;
    }
    proof {
        assert(dst@ =~= old(dst)@ + src@.subrange(pos as int, pos + n));
    }
    n
}

/// Relays the whole of `src` onto the end of `dst` by repeated bounded
/// chunk transfers, exactly as the relay loop would across successive wait
/// cycles: every byte arrives, in order, once.
pub fn copy_all(src: &Vec<u8>, dst: &mut Vec<u8>)
    ensures
        final(dst)@ == old(dst)@ + src@,
{
    let total = src.len();
    let mut pos: usize = 0;
    while pos < total
        invariant
            total == src@.len(),
            pos <= total,
            dst@ == old(dst)@ + src@.subrange(0, pos as int),
        decreases total - pos,
    {
        let n = copy_chunk(src, pos, dst);
        proof {
            assert(dst@ =~= old(dst)@ + src@.subrange(0, pos + n)) by {
                assert(src@.subrange(0, pos as int) + src@.subrange(pos as int, pos + n)
                    =~= src@.subrange(0, pos + n));
            }
        }
        pos = pos + n;
    }
    proof {
        assert(old(dst)@ + src@.subrange(0, src@.len() as int) =~= old(dst)@ + src@);
    }
}

} // verus!
