use zeroos::stack::{DownwardStack, MIN_STACK_ALIGN};

#[test]
fn new_stack_is_aligned_down() {
    assert_eq!(DownwardStack::<u64>::new(0x8000).sp(), 0x8000);
    assert_eq!(DownwardStack::<u64>::new(0x8001).sp(), 0x8000);
    assert_eq!(DownwardStack::<u64>::new(0x800f).sp(), 0x8000);
    assert_eq!(DownwardStack::<u8>::new(0x801f).sp(), 0x8010);
    assert_eq!(DownwardStack::<usize>::new(0).sp(), 0);
    assert_eq!(MIN_STACK_ALIGN, 16);
}

#[test]
fn a_smaller_minimum_keeps_the_alignment_of_the_type() {
    assert_eq!(DownwardStack::<u64>::with_min_align(0x8007, 1).sp(), 0x8000);
    assert_eq!(DownwardStack::<u64>::with_min_align(0x800f, 1).sp(), 0x8008);
    assert_eq!(DownwardStack::<u8>::with_min_align(0x800f, 1).sp(), 0x800f);
    assert_eq!(DownwardStack::<u8>::with_min_align(0x800f, 8).sp(), 0x8008);
    assert_eq!(DownwardStack::<u8>::with_min_align(0x80ff, 64).sp(), 0x80c0);
}

#[test]
fn push_and_pop_move_by_one_slot() {
    let mut stack = DownwardStack::<u64>::new(0x8000);
    assert_eq!(stack.push(), 0x7ff8);
    assert_eq!(stack.push(), 0x7ff0);
    assert_eq!(stack.sp(), 0x7ff0);
    assert_eq!(stack.pop(), 0x7ff0);
    assert_eq!(stack.pop(), 0x7ff8);
    assert_eq!(stack.sp(), 0x8000);

    let mut bytes = DownwardStack::<u8>::new(0x100);
    assert_eq!(bytes.push(), 0xff);
    assert_eq!(bytes.pop(), 0xff);
}

#[test]
fn addr_at_counts_in_slots() {
    let stack = DownwardStack::<u32>::new(0x8000);
    assert_eq!(stack.addr_at(0), 0x8000);
    assert_eq!(stack.addr_at(1), 0x8004);
    assert_eq!(stack.addr_at(3), 0x800c);
    assert_eq!(stack.addr_at(-1), 0x7ffc);
    assert_eq!(stack.addr_at(-0x2000), 0);
    let high = DownwardStack::<u64>::new(usize::MAX - 15);
    assert_eq!(high.addr_at(1), usize::MAX - 7);
    assert_eq!(high.addr_at(-1), usize::MAX - 23);
    let wide = DownwardStack::<[u64; 4]>::new(0x8000);
    assert_eq!(wide.addr_at(2), 0x8040);
    assert_eq!(wide.addr_at(-2), 0x7fc0);
}
