use wgpu_util::{
    as_label, reserve_function, to_owned_label, usage_has_copy_dst, usage_is_accepted, BufferPool,
    BufferPoolDescriptor, ALL_USAGES, COPY_DST, COPY_SRC, INDEX, INDIRECT, MAP_READ, MAP_WRITE,
    STORAGE, UNIFORM, VERTEX,
};

#[test]
fn growth_squares_the_last_size() {
    assert_eq!(reserve_function(2), 4);
    assert_eq!(reserve_function(3), 9);
    assert_eq!(reserve_function(16), 256);
    assert_eq!(reserve_function(u32::MAX as u64), (u32::MAX as u64) * (u32::MAX as u64));
}

#[test]
fn growth_stagnates_at_zero_and_one() {
    assert_eq!(reserve_function(0), 0);
    assert_eq!(reserve_function(1), 1);
}

#[test]
fn labels_are_copied_and_borrowed_back() {
    let owned = to_owned_label(Some("pool"));
    assert_eq!(owned, Some(String::from("pool")));
    assert_eq!(as_label(&owned), Some("pool"));
    assert_eq!(to_owned_label(None), None);
    assert_eq!(as_label(&None), None);
}

#[test]
fn new_pool_is_empty() {
    let pool = BufferPool::new(&BufferPoolDescriptor {
        label: Some("pool"),
        usage: UNIFORM | COPY_DST,
    });
    assert_eq!(pool.size(), 0);
    assert_eq!(pool.occupied(), 0);
    assert!(pool.get(0).is_none());
    assert!(pool.get_any(0).is_none());
}

#[test]
fn clearing_an_empty_pool_keeps_it_empty() {
    let mut pool = BufferPool::new(&BufferPoolDescriptor { label: None, usage: VERTEX });
    pool.clear();
    assert_eq!(pool.size(), 0);
    assert_eq!(pool.occupied(), 0);
    assert!(pool.get(1).is_none());
}

#[test]
fn usage_bits_are_those_of_wgpu() {
    assert_eq!(MAP_READ, wgpu::BufferUsage::MAP_READ.bits());
    assert_eq!(MAP_WRITE, wgpu::BufferUsage::MAP_WRITE.bits());
    assert_eq!(COPY_SRC, wgpu::BufferUsage::COPY_SRC.bits());
    assert_eq!(COPY_DST, wgpu::BufferUsage::COPY_DST.bits());
    assert_eq!(INDEX, wgpu::BufferUsage::INDEX.bits());
    assert_eq!(VERTEX, wgpu::BufferUsage::VERTEX.bits());
    assert_eq!(UNIFORM, wgpu::BufferUsage::UNIFORM.bits());
    assert_eq!(STORAGE, wgpu::BufferUsage::STORAGE.bits());
    assert_eq!(INDIRECT, wgpu::BufferUsage::INDIRECT.bits());
    assert_eq!(ALL_USAGES, wgpu::BufferUsage::all().bits());
}

#[test]
fn usages_that_wgpu_refuses_are_told_apart() {
    assert!(!usage_is_accepted(0));
    assert!(!usage_is_accepted(1024));
    assert!(!usage_is_accepted(MAP_READ | VERTEX));
    assert!(!usage_is_accepted(MAP_WRITE | COPY_DST));
    assert!(usage_is_accepted(MAP_READ | COPY_DST));
    assert!(usage_is_accepted(MAP_WRITE | COPY_SRC));
    assert!(usage_is_accepted(MAP_WRITE));
    assert!(usage_is_accepted(VERTEX | COPY_DST | STORAGE));
}

#[test]
fn copy_dst_is_needed_for_queue_writes() {
    assert!(usage_has_copy_dst(VERTEX | COPY_DST));
    assert!(!usage_has_copy_dst(VERTEX | COPY_SRC));
    assert!(!usage_has_copy_dst(0));
}
