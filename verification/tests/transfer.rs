use pipecat::transfer::{classify_outcome, copy_all, copy_chunk, TransferOutcome, CHUNK_LIMIT};

#[test]
fn chunk_limit_is_one_pipe_buffer() {
    assert_eq!(CHUNK_LIMIT, 4096);
}

#[test]
fn outcome_classification() {
    assert_eq!(classify_outcome(4096, 0), TransferOutcome::Moved(4096));
    assert_eq!(classify_outcome(1, 0), TransferOutcome::Moved(1));
    assert_eq!(classify_outcome(0, 0), TransferOutcome::EndOfStream);
    assert_eq!(classify_outcome(-1, 11), TransferOutcome::Failed(11));
    assert_eq!(classify_outcome(-1, 32), TransferOutcome::Failed(32));
}

fn pattern(len: usize) -> Vec<u8> {
    (0..len).map(|i| (i % 251) as u8).collect()
}

#[test]
fn oversized_input_moves_in_bounded_chunks() {
    // A chunk larger than the bounded transfer size crosses in several
    // invocations, each moving at most one pipe-buffer unit, and arrives
    // whole and in order.
    let src = pattern(10000);
    let mut dst: Vec<u8> = Vec::new();
    let mut pos: usize = 0;
    let mut moves: Vec<usize> = Vec::new();
    loop {
        let n = copy_chunk(&src, pos, &mut dst);
        if n == 0 {
            break;
        }
        moves.push(n);
        pos += n;
    }
    assert_eq!(moves, vec![4096, 4096, 1808]);
    assert!(moves.iter().all(|&n| n <= CHUNK_LIMIT));
    assert_eq!(dst, src);
}

#[test]
fn chunk_is_cut_at_the_limit() {
    let src = pattern(5000);
    let mut dst: Vec<u8> = Vec::new();
    let n = copy_chunk(&src, 0, &mut dst);
    assert_eq!(n, CHUNK_LIMIT);
    assert_eq!(dst, src[..CHUNK_LIMIT].to_vec());
}

#[test]
fn short_chunk_moves_the_remainder() {
    let src = pattern(100);
    let mut dst: Vec<u8> = Vec::new();
    let n = copy_chunk(&src, 40, &mut dst);
    assert_eq!(n, 60);
    assert_eq!(dst, src[40..].to_vec());
}

#[test]
fn zero_length_chunk_means_end_of_stream() {
    let src = pattern(100);
    let mut dst: Vec<u8> = Vec::new();
    let n = copy_chunk(&src, 100, &mut dst);
    assert_eq!(n, 0);
    assert!(dst.is_empty());
    let empty: Vec<u8> = Vec::new();
    let n = copy_chunk(&empty, 0, &mut dst);
    assert_eq!(n, 0);
}

#[test]
fn whole_stream_arrives_in_order_exactly_once() {
    let src = pattern(9999);
    let mut dst: Vec<u8> = Vec::new();
    copy_all(&src, &mut dst);
    assert_eq!(dst, src);
}

#[test]
fn relayed_bytes_append_after_earlier_ones() {
    let src = pattern(300);
    let mut dst: Vec<u8> = vec![9, 9, 9];
    copy_all(&src, &mut dst);
    assert_eq!(&dst[..3], &[9, 9, 9]);
    assert_eq!(&dst[3..], &src[..]);
}

#[test]
fn empty_stream_moves_nothing() {
    let src: Vec<u8> = Vec::new();
    let mut dst: Vec<u8> = Vec::new();
    copy_all(&src, &mut dst);
    assert!(dst.is_empty());
}
