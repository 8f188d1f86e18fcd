use async_rt::task_id::{TaskId, TaskIdAllocator};

#[test]
fn generate_returns_counter_and_increments() {
    let mut allocator = TaskIdAllocator::new(0);
    let a = TaskId::generate(&mut allocator);
    let b = TaskId::generate(&mut allocator);
    let c = TaskId::generate(&mut allocator);
    assert_eq!(a.value, 0);
    assert_eq!(b.value, 1);
    assert_eq!(c.value, 2);
}

#[test]
fn generated_ids_strictly_increase_and_never_repeat() {
    let mut allocator = TaskIdAllocator::new(5);
    let mut previous: Option<usize> = None;
    let mut seen: Vec<usize> = Vec::new();
    for _ in 0..100 {
        let id = TaskId::generate(&mut allocator);
        if let Some(p) = previous {
            assert!(id.value > p);
        }
        assert!(!seen.contains(&id.value));
        seen.push(id.value);
        previous = Some(id.value);
    }
}

#[test]
fn allocator_start_is_respected() {
    let mut kernel_side = TaskIdAllocator::new(0);
    let mut user_side = TaskIdAllocator::new(1);
    assert_eq!(TaskId::generate(&mut kernel_side).value, 0);
    assert_eq!(TaskId::generate(&mut user_side).value, 1);
}

#[test]
fn last_issuable_id_is_half_the_range() {
    let mut allocator = TaskIdAllocator::new(usize::MAX / 2);
    let id = TaskId::generate(&mut allocator);
    assert_eq!(id.value, usize::MAX / 2);
}

#[test]
fn task_id_converts_to_its_raw_value() {
    let mut allocator = TaskIdAllocator::new(42);
    let id = TaskId::generate(&mut allocator);
    let raw: usize = usize::from(id);
    assert_eq!(raw, 42);
}
