use egaku2d::vbo::{GrowableBuffer, StaticBuffer};

#[test]
fn growable_starts_empty() {
    let b: GrowableBuffer<u32> = GrowableBuffer::new(3);
    assert_eq!(b.get_id(), 3);
    assert_eq!(b.len(), 0);
    assert_eq!(b.get_num_verticies(), 0);
    assert!(b.get_verts().is_empty());
}

#[test]
fn push_accumulates_vertices() {
    let mut b: GrowableBuffer<u32> = GrowableBuffer::new(1);
    b.push(10);
    b.push(11);
    b.push(12);
    assert_eq!(b.len(), 3);
    assert_eq!(b.get_verts(), &[10, 11, 12]);
    assert!(b.capacity() >= 3);
}

#[test]
fn clear_keeps_the_handle() {
    let mut b: GrowableBuffer<u32> = GrowableBuffer::new(9);
    b.push(1);
    b.push(2);
    b.clear();
    assert_eq!(b.len(), 0);
    assert_eq!(b.get_id(), 9);
}

#[test]
fn first_update_allocates() {
    let mut b: GrowableBuffer<u32> = GrowableBuffer::new(1);
    b.push(10);
    b.push(11);
    let plan = b.update();
    assert_eq!(plan.upload_len, 2);
    let allocated = plan.realloc.expect("nothing was allocated yet, so the first update must");
    assert!(allocated >= 2);
}

#[test]
fn second_update_reuses_the_allocation() {
    let mut b: GrowableBuffer<u32> = GrowableBuffer::new(1);
    b.push(10);
    b.push(11);
    let _ = b.update();
    let plan = b.update();
    assert_eq!(plan.upload_len, 2);
    assert!(plan.realloc.is_none());
}

#[test]
fn outgrowing_the_allocation_reallocates() {
    let mut b: GrowableBuffer<u32> = GrowableBuffer::new(1);
    b.push(0);
    let _ = b.update();
    for i in 0..100 {
        b.push(i);
    }
    let plan = b.update();
    assert_eq!(plan.upload_len, 101);
    let allocated = plan.realloc.expect("101 vertices cannot fit the first allocation");
    assert!(allocated >= 101);
}

#[test]
fn send_to_gpu_replaces_the_batch() {
    let mut b: GrowableBuffer<u32> = GrowableBuffer::new(4);
    b.push(99);
    let plan = b.send_to_gpu(&[7, 8, 9]);
    assert_eq!(plan.upload_len, 3);
    assert_eq!(b.get_verts(), &[7, 8, 9]);
    assert_eq!(b.len(), 3);
}

#[test]
fn send_to_gpu_of_nothing_is_empty() {
    let mut b: GrowableBuffer<u32> = GrowableBuffer::new(4);
    let plan = b.send_to_gpu(&[]);
    assert_eq!(plan.upload_len, 0);
    assert_eq!(b.len(), 0);
}

#[test]
fn static_buffer_records_the_upload() {
    let s: StaticBuffer<u32> = StaticBuffer::new(7, &[1, 2, 3, 4, 5]);
    assert_eq!(s.get_id(), 7);
    assert_eq!(s.len(), 5);
}

#[test]
fn static_buffer_of_nothing() {
    let s: StaticBuffer<u32> = StaticBuffer::new(2, &[]);
    assert_eq!(s.get_id(), 2);
    assert_eq!(s.len(), 0);
}
