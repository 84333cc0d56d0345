use upload_core::chunks::{ChunkBuilder, split_into_chunks};

#[test]
fn split_uneven_source() {
    // 10 bytes at chunk size 4: three chunks of 4, 4 and 2 bytes.
    let source: Vec<u8> = (0u8..10).collect();
    let chunks = split_into_chunks(&source, 4);
    assert_eq!(chunks.len(), 3);
    assert_eq!(chunks[0].part_number, 1);
    assert_eq!(chunks[1].part_number, 2);
    assert_eq!(chunks[2].part_number, 3);
    assert_eq!(chunks[0].data, vec![0, 1, 2, 3]);
    assert_eq!(chunks[1].data, vec![4, 5, 6, 7]);
    assert_eq!(chunks[2].data, vec![8, 9]);
    let mut joined: Vec<u8> = Vec::new();
    for c in &chunks {
        joined.extend_from_slice(&c.data);
    }
    assert_eq!(joined, source);
}

#[test]
fn split_even_source() {
    // 8 bytes at chunk size 4: two full chunks, the last one full too.
    let source: Vec<u8> = (0u8..8).collect();
    let chunks = split_into_chunks(&source, 4);
    assert_eq!(chunks.len(), 2);
    assert_eq!(chunks[1].data.len(), 4);
}

#[test]
fn split_empty_source() {
    let source: Vec<u8> = Vec::new();
    let chunks = split_into_chunks(&source, 4);
    assert_eq!(chunks.len(), 0);
}

#[test]
fn split_single_short_chunk() {
    let source: Vec<u8> = vec![42, 43];
    let chunks = split_into_chunks(&source, 1024);
    assert_eq!(chunks.len(), 1);
    assert_eq!(chunks[0].part_number, 1);
    assert_eq!(chunks[0].data, vec![42, 43]);
}

#[test]
fn split_25_mib_source_into_10_mib_chunks() {
    // 25 MiB at 10 MiB chunks: parts of 10, 10 and 5 MiB.
    let mib = 1024 * 1024;
    let source: Vec<u8> = vec![7u8; 25 * mib];
    let chunks = split_into_chunks(&source, 10 * mib);
    assert_eq!(chunks.len(), 3);
    assert_eq!(chunks[0].data.len(), 10 * mib);
    assert_eq!(chunks[1].data.len(), 10 * mib);
    assert_eq!(chunks[2].data.len(), 5 * mib);
    assert_eq!(
        chunks[0].data.len() + chunks[1].data.len() + chunks[2].data.len(),
        26214400
    );
}

#[test]
fn builder_accumulates_reads_into_chunks() {
    let mut b = ChunkBuilder::new(4);
    assert!(b.is_empty());
    assert_eq!(b.remaining(), 4);
    b.push_read(&vec![1, 2, 3]);
    assert_eq!(b.remaining(), 1);
    assert!(!b.is_full());
    b.push_read(&vec![4]);
    assert!(b.is_full());
    let chunk = b.take();
    assert_eq!(chunk, vec![1, 2, 3, 4]);
    assert!(b.is_empty());
    // A short final chunk: fewer bytes than the capacity.
    b.push_read(&vec![5, 6]);
    let last = b.take();
    assert_eq!(last, vec![5, 6]);
}
