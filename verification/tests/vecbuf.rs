use rustls::vecbuf::ChunkVecBuffer;

#[test]
fn limited_append_admits_up_to_the_limit() {
    let mut q = ChunkVecBuffer::new(Some(4));
    assert_eq!(q.append_limited_copy(b"abc"), 3);
    assert_eq!(q.append_limited_copy(b"def"), 1);
    assert_eq!(q.append_limited_copy(b"g"), 0);
    assert_eq!(q.len(), 4);
    assert!(!q.is_full());
    let mut buf = [0u8; 8];
    assert_eq!(q.read(&mut buf), 4);
    assert_eq!(&buf[..4], b"abcd");
    assert!(q.is_empty());
}

#[test]
fn exactly_the_limit_is_admitted_however_the_writes_are_cut() {
    for cut in [1usize, 3, 7, 64, 100, 1000] {
        let mut q = ChunkVecBuffer::new(Some(100));
        let data = vec![5u8; 100 + 37];
        let mut admitted = 0;
        for piece in data.chunks(cut) {
            admitted += q.append_limited_copy(piece);
        }
        assert_eq!(admitted, 100);
        assert_eq!(q.len(), 100);
        assert_eq!(q.apply_limit(1), 0);
    }
}

#[test]
fn without_a_limit_everything_is_admitted() {
    let mut q = ChunkVecBuffer::new(None);
    assert_eq!(q.append_limited_copy(&[1u8; 100_000]), 100_000);
    assert_eq!(q.apply_limit(usize::MAX), usize::MAX);
    assert!(!q.is_full());
    assert_eq!(q.len(), 100_000);
}

#[test]
fn append_ignores_the_limit_and_stores_no_empty_chunk() {
    let mut q = ChunkVecBuffer::new(Some(2));
    assert_eq!(q.append(vec![1, 2, 3]), 3);
    assert!(q.is_full());
    assert_eq!(q.append(vec![]), 0);
    assert_eq!(q.chunk_count(), 1);
    assert_eq!(q.apply_limit(10), 0);
    assert_eq!(q.append_limited_copy(b"x"), 0);
    assert_eq!(q.chunk_count(), 1);
}

#[test]
fn a_lower_limit_keeps_what_is_held() {
    let mut q = ChunkVecBuffer::new(Some(10));
    assert_eq!(q.append_limited_copy(b"12345678"), 8);
    q.set_limit(Some(4));
    assert_eq!(q.len(), 8);
    assert!(q.is_full());
    assert_eq!(q.append_limited_copy(b"9"), 0);
    q.set_limit(None);
    assert_eq!(q.append_limited_copy(b"9"), 1);
    assert_eq!(q.len(), 9);
}

#[test]
fn chunks_come_out_in_order() {
    let mut q = ChunkVecBuffer::new(None);
    q.append(b"ab".to_vec());
    q.append(b"cde".to_vec());
    assert_eq!(q.chunk_count(), 2);
    assert_eq!(q.chunk(0), b"ab");
    assert_eq!(q.chunk(1), b"cde");
    assert_eq!(q.pop(), Some(b"ab".to_vec()));
    assert_eq!(q.pop(), Some(b"cde".to_vec()));
    assert_eq!(q.pop(), None);
}

#[test]
fn consume_drops_whole_chunks_and_keeps_the_tail_of_the_next() {
    let mut q = ChunkVecBuffer::new(None);
    q.append(b"ab".to_vec());
    q.append(b"cde".to_vec());
    q.append(b"f".to_vec());
    q.consume(0);
    assert_eq!(q.len(), 6);
    q.consume(3);
    assert_eq!(q.chunk_count(), 2);
    assert_eq!(q.chunk(0), b"de");
    q.consume(2);
    assert_eq!(q.chunk_count(), 1);
    assert_eq!(q.chunk(0), b"f");
    q.consume(100);
    assert!(q.is_empty());
    assert_eq!(q.len(), 0);
}

#[test]
fn read_spans_chunks_and_leaves_the_rest() {
    let mut q = ChunkVecBuffer::new(None);
    q.append(b"ab".to_vec());
    q.append(b"cde".to_vec());
    let mut buf = [9u8; 4];
    assert_eq!(q.read(&mut buf), 4);
    assert_eq!(&buf, b"abcd");
    assert_eq!(q.len(), 1);
    let mut none: [u8; 0] = [];
    assert_eq!(q.read(&mut none), 0);
    assert_eq!(q.len(), 1);
    let mut big = [9u8; 4];
    assert_eq!(q.read(&mut big), 1);
    assert_eq!(big, [b'e', 9, 9, 9]);
    assert_eq!(q.read(&mut big), 0);
}

#[test]
fn a_queue_is_empty_exactly_when_it_holds_no_byte() {
    let mut q = ChunkVecBuffer::new(Some(0));
    assert!(q.is_empty());
    assert_eq!(q.append_limited_copy(b"abc"), 0);
    assert_eq!(q.append(Vec::new()), 0);
    assert!(q.is_empty());
    assert_eq!(q.chunk_count(), 0);
    q.append(b"ab".to_vec());
    assert!(!q.is_empty());
    q.consume(1);
    assert!(!q.is_empty());
    assert_eq!(q.len(), 1);
    q.consume(1);
    assert!(q.is_empty());
    assert_eq!(q.len(), 0);
    assert_eq!(q.pop(), None);
}
