use fluxus::utils::maybe_deallocate_chunk::MaybeDeallocateChunk;
use fluxus::utils::maybe_heap_chunk::MaybeHeapChunk;

#[test]
fn deallocate_chunk_borrows_sufficient_space() {
    let mut space = [1u8; 600];
    let mut chunk = MaybeDeallocateChunk::new_sufficiency(&mut space, 512);
    assert_eq!(chunk.len(), 600);
    assert!(matches!(chunk, MaybeDeallocateChunk::Borrowed(_)));
    chunk.data()[0] = 5;
    assert_eq!(chunk.data_initialized(2), &[5, 1]);
    drop(chunk);
    assert_eq!(space[0], 5);
}

#[test]
fn deallocate_chunk_allocates_when_short() {
    let mut space = [0u8; 10];
    let chunk = MaybeDeallocateChunk::new_sufficiency(&mut space, 512);
    assert_eq!(chunk.len(), 512);
    assert!(matches!(chunk, MaybeDeallocateChunk::Allocated(_)));
    let mut space = [3u8; 600];
    let clamped = MaybeDeallocateChunk::new_sufficiency_clamped(&mut space, 512);
    assert_eq!(clamped.len(), 512);
    assert!(!clamped.is_empty());
    let owned = MaybeDeallocateChunk::new_deallocated(vec![1, 2, 3], 5);
    assert_eq!(owned.full_data_initialized(), &[1, 2, 3, 0, 0]);
    let cut = MaybeDeallocateChunk::new_deallocated(vec![1, 2, 3], 2);
    assert_eq!(cut.full_data_initialized(), &[1, 2]);
}

#[test]
fn heap_chunk_uses_capacity() {
    let mut buf = Vec::with_capacity(64);
    buf.extend_from_slice(&[4, 5]);
    let mut chunk = MaybeHeapChunk::heap(buf);
    assert!(chunk.data().len() >= 64);
    assert_eq!(chunk.data_initialized(2), &[4, 5]);
    chunk.data_initialized_mut(1)[0] = 9;
    assert_eq!(chunk.data_mut()[0], 9);
    let mut stack = [7u8; 4];
    let chunk = MaybeHeapChunk::stack_uninit(&mut stack);
    assert_eq!(chunk.data(), &[7, 7, 7, 7]);
}
