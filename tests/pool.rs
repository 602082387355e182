use webgpu::pool::{Acquired, BufferPools};
use webgpu::presentation::padded_stride;
use webgpu::PRESENTATION_BUFFER_COUNT;

#[test]
fn stride_is_padded_past_the_row() {
    assert_eq!(padded_stride(0), 256);
    assert_eq!(padded_stride(10), 256);
    assert_eq!(padded_stride(63), 256);
    assert_eq!(padded_stride(64), 512);
    assert_eq!(padded_stride(100), 512);
    assert_eq!(padded_stride(640), 2816);
}

#[test]
fn new_pool_refuses_repeated_or_too_many_ids() {
    assert!(BufferPools::new(&vec![1, 2, 2]).is_none());
    let many: Vec<u64> = (0..11).collect();
    assert!(BufferPools::new(&many).is_none());
    let full: Vec<u64> = (0..PRESENTATION_BUFFER_COUNT as u64).collect();
    assert!(BufferPools::new(&full).is_some());
    assert!(BufferPools::new(&vec![]).is_some());
}

#[test]
fn acquire_prefers_available_then_unassigned() {
    let mut p = BufferPools::new(&vec![1, 2, 3]).unwrap();
    assert_eq!(p.acquire(), Acquired::Fresh(3));
    assert_eq!(p.acquire(), Acquired::Fresh(2));
    assert!(p.complete(3));
    assert_eq!(p.acquire(), Acquired::Reused(3));
    assert_eq!(p.acquire(), Acquired::Fresh(1));
    assert_eq!(p.acquire(), Acquired::Exhausted);
    assert_eq!(p.in_use(), 3);
}

#[test]
fn complete_of_unqueued_id_changes_nothing() {
    let mut p = BufferPools::new(&vec![1, 2]).unwrap();
    assert!(!p.complete(1));
    assert!(!p.complete(99));
    assert_eq!(p.acquire(), Acquired::Fresh(2));
    assert!(p.complete(2));
    assert!(!p.complete(2));
    let rel = p.release();
    assert_eq!(rel.unmap_and_destroy, Vec::<u64>::new());
    assert_eq!(rel.destroy, vec![2]);
    assert_eq!(rel.recycle, vec![1]);
}

#[test]
fn pools_stay_within_capacity_over_many_presents() {
    let ids: Vec<u64> = (100..110).collect();
    let mut p = BufferPools::new(&ids).unwrap();
    let mut queued: Vec<u64> = Vec::new();
    for round in 0..40u64 {
        match p.acquire() {
            Acquired::Fresh(id) | Acquired::Reused(id) => {
                assert!(!queued.contains(&id));
                queued.push(id);
            }
            Acquired::Exhausted => assert_eq!(queued.len(), PRESENTATION_BUFFER_COUNT),
        }
        if round % 3 == 0 && !queued.is_empty() {
            let id = queued.remove(0);
            assert!(p.complete(id));
        }
        assert_eq!(p.in_use(), 10);
    }
    let rel = p.release();
    let mut all: Vec<u64> = rel.unmap_and_destroy.clone();
    all.extend(rel.destroy.iter());
    all.extend(rel.recycle.iter());
    all.sort();
    assert_eq!(all, ids);
    assert_eq!(rel.unmap_and_destroy, queued);
}

#[test]
fn acquired_buffer_is_not_available_until_completed() {
    let mut p = BufferPools::new(&vec![7]).unwrap();
    assert_eq!(p.acquire(), Acquired::Fresh(7));
    assert_eq!(p.acquire(), Acquired::Exhausted);
    assert!(p.complete(7));
    assert_eq!(p.acquire(), Acquired::Reused(7));
}
