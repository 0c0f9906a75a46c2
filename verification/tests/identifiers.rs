use session_slots::ids::{DataId, IdAllocator, PathId};

/// A run of allocations within one family yields distinct, strictly
/// increasing, never-null identifiers.
#[test]
fn allocator_run_is_distinct_increasing_nonnull() {
    let mut alloc = IdAllocator::new();
    let mut seen: Vec<u64> = Vec::new();
    for _ in 0..100 {
        seen.push(alloc.allocate());
    }
    for i in 0..seen.len() {
        assert_ne!(seen[i], 0);
        for j in (i + 1)..seen.len() {
            assert!(seen[i] < seen[j]);
        }
    }
}

#[test]
fn path_and_data_ids_start_at_one() {
    let mut paths = IdAllocator::new();
    let mut datas = IdAllocator::new();
    let p = PathId::new(&mut paths);
    let d = DataId::new(&mut datas);
    assert_ne!(p, PathId::null());
    assert_ne!(d, DataId::null());
    let p2 = PathId::new(&mut paths);
    assert_ne!(p, p2);
}

#[test]
fn null_ids_are_default() {
    assert_eq!(PathId::null(), PathId::default());
    assert_eq!(DataId::null(), DataId::default());
}
