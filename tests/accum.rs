use interlumen::accum::Accumulation;

#[test]
fn new_buffer_is_zeroed() {
    let a = Accumulation::new(3, 2, 0u32);
    assert_eq!(a.sums(), &vec![0u32; 6]);
    assert_eq!(a.steps(), 0);
    assert_eq!((a.width(), a.height()), (3, 2));
}

#[test]
fn passes_add_per_slot_and_count() {
    let mut a = Accumulation::new(2, 2, 0u32);
    a.add_pass(&vec![1, 2, 3, 4], |s, x| s + x);
    a.add_pass(&vec![10, 20, 30, 40], |s, x| s + x);
    assert_eq!(a.sums(), &vec![11, 22, 33, 44]);
    assert_eq!(a.steps(), 2);
}

#[test]
fn reset_clears_sums_and_steps() {
    let mut a = Accumulation::new(2, 1, 0u32);
    a.add_pass(&vec![5, 6], |s, x| s + x);
    a.reset(1, 3, 0);
    assert_eq!(a.sums(), &vec![0u32; 3]);
    assert_eq!(a.steps(), 0);
    assert_eq!((a.width(), a.height()), (1, 3));
}

#[test]
fn empty_frame_has_no_slots() {
    let mut a = Accumulation::new(0, 5, 0u32);
    a.add_pass(&Vec::new(), |s, x| s + x);
    assert!(a.sums().is_empty());
    assert_eq!(a.steps(), 1);
}
