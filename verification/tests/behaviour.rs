use double_buffer::render::debug_frame;
use double_buffer::DoubleBuffer;
use std::borrow::{Borrow, BorrowMut};
use std::cmp::Ordering;

#[test]
fn new_exposes_first_as_current_and_second_as_next() {
    let buffer: DoubleBuffer<u64> = DoubleBuffer::new(u64::MAX, 0);
    assert_eq!(*buffer.current(), u64::MAX);
    assert_eq!(*buffer.next(), 0);

    let words: DoubleBuffer<String> = DoubleBuffer::new(String::from("a"), String::from("b"));
    assert_eq!(words.current().as_str(), "a");
    assert_eq!(words.next().as_str(), "b");
}

#[test]
fn default_starts_with_two_defaults() {
    let buffer: DoubleBuffer<String> = DoubleBuffer::default();
    assert_eq!(buffer.current().as_str(), "");
    assert_eq!(buffer.next().as_str(), "");
}

#[test]
fn writes_show_in_next_at_once_and_in_current_after_swap() {
    let mut buffer: DoubleBuffer<u32> = DoubleBuffer::new(10, 20);
    *buffer.next_mut() = 5;
    assert_eq!(*buffer.next(), 5);
    assert_eq!(*buffer.current(), 10);
    *buffer.next_mut() = 6;
    *buffer = 7;
    assert_eq!(*buffer.next(), 7);
    assert_eq!(*buffer.current(), 10);

    buffer.swap();
    assert_eq!(*buffer.current(), 7);
    assert_eq!(*buffer.next(), 10);
}

#[test]
fn swap_without_writes_commits_the_old_next() {
    let mut buffer: DoubleBuffer<u8> = DoubleBuffer::new(1, 2);
    buffer.swap();
    assert_eq!(*buffer.current(), 2);
    assert_eq!(*buffer.next(), 1);
}

#[test]
fn swap_twice_restores_values_and_address() {
    let mut buffer: DoubleBuffer<u32> = DoubleBuffer::new(1, 2);
    let address = buffer.pointer_string();
    buffer.swap();
    buffer.swap();
    assert_eq!(*buffer.current(), 1);
    assert_eq!(*buffer.next(), 2);
    assert_eq!(buffer.pointer_string(), address);
}

#[test]
fn swap_moves_current_to_the_other_slot() {
    let mut buffer: DoubleBuffer<[u8; 64]> = DoubleBuffer::new([0; 64], [0; 64]);
    let first = buffer.pointer_string();
    buffer.swap();
    let second = buffer.pointer_string();
    assert_ne!(first, second);
}

#[test]
fn swap_with_clone_keeps_current_in_its_slot() {
    let mut buffer: DoubleBuffer<String> = DoubleBuffer::new(String::from("old"), String::new());
    buffer.push_str("new");
    let address = buffer.pointer_string();

    buffer.swap_with_clone();
    assert_eq!(buffer.current().as_str(), "new");
    assert_eq!(buffer.next().as_str(), "new");
    assert_eq!(buffer.pointer_string(), address);

    buffer.push_str("er");
    assert_eq!(buffer.current().as_str(), "new");
    assert_eq!(buffer.next().as_str(), "newer");
}

#[test]
fn swap_with_default_commits_next_and_resets_it() {
    let mut buffer: DoubleBuffer<String> =
        DoubleBuffer::new(String::from("old"), String::from("written"));
    let address = buffer.pointer_string();

    buffer.swap_with_default();
    assert_eq!(buffer.current().as_str(), "written");
    assert_eq!(buffer.next().as_str(), "");
    assert_ne!(buffer.pointer_string(), address);
}

#[test]
fn comparison_with_a_value_reads_current_only() {
    let mut buffer: DoubleBuffer<i32> = DoubleBuffer::new(4, 9);
    assert!(buffer == 4);
    assert!(buffer != 9);
    assert!(buffer < 5);
    assert!(buffer > 3);
    assert!(buffer <= 4);
    assert!(buffer >= 4);
    assert_eq!(buffer.partial_cmp(&9), Some(Ordering::Less));

    *buffer = 100;
    assert!(buffer == 4);
    assert!(buffer < 5);
}

#[test]
fn comparison_between_buffers_reads_current_only() {
    let left: DoubleBuffer<i32> = DoubleBuffer::new(4, 1);
    let same: DoubleBuffer<i32> = DoubleBuffer::new(4, 2);
    let more: DoubleBuffer<i32> = DoubleBuffer::new(5, 0);
    assert!(left == same);
    assert!(left != more);
    assert!(left < more);
    assert!(more > same);
    assert_eq!(left.partial_cmp(&same), Some(Ordering::Equal));
    assert_eq!(left.cmp(&same), Ordering::Equal);
    assert_eq!(left.cmp(&more), Ordering::Less);
    assert_eq!(more.cmp(&left), Ordering::Greater);
}

#[test]
fn access_traits_read_current_and_write_next() {
    let mut buffer: DoubleBuffer<u32> = DoubleBuffer::new(1, 2);
    let read: &u32 = buffer.as_ref();
    assert_eq!(*read, 1);
    let read: &u32 = Borrow::<u32>::borrow(&buffer);
    assert_eq!(*read, 1);
    assert_eq!(*buffer, 1);

    let write: &mut u32 = buffer.as_mut();
    *write = 3;
    assert_eq!(*buffer.next(), 3);
    let write: &mut u32 = BorrowMut::<u32>::borrow_mut(&mut buffer);
    *write = 4;
    assert_eq!(*buffer.next(), 4);
    assert_eq!(*buffer.current(), 1);
}

#[test]
fn debug_string_shows_values_by_role() {
    let mut buffer: DoubleBuffer<u32> = DoubleBuffer::new(0, 0);
    assert_eq!(
        buffer.debug_string(),
        Some(String::from("DoubleBuffer { current: 0, next: 0 }"))
    );

    *buffer = 1;
    assert_eq!(
        buffer.debug_string(),
        Some(String::from("DoubleBuffer { current: 0, next: 1 }"))
    );

    buffer.swap();
    assert_eq!(
        buffer.debug_string(),
        Some(String::from("DoubleBuffer { current: 1, next: 0 }"))
    );
}

struct Fussy(u8);

impl std::fmt::Debug for Fussy {
    fn fmt(&self, f: &mut std::fmt::Formatter<'_>) -> std::fmt::Result {
        if self.0 == 0 {
            return Err(std::fmt::Error);
        }
        f.write_str("fine")
    }
}

#[test]
fn debug_string_is_none_where_a_value_cannot_be_shown() {
    let both: DoubleBuffer<Fussy> = DoubleBuffer::new(Fussy(1), Fussy(2));
    assert_eq!(
        both.debug_string(),
        Some(String::from("DoubleBuffer { current: fine, next: fine }"))
    );

    let current_fails: DoubleBuffer<Fussy> = DoubleBuffer::new(Fussy(0), Fussy(1));
    assert_eq!(current_fails.debug_string(), None);

    let mut next_fails: DoubleBuffer<Fussy> = DoubleBuffer::new(Fussy(1), Fussy(0));
    assert_eq!(next_fails.debug_string(), None);
    next_fails.swap();
    assert_eq!(next_fails.debug_string(), None);
    next_fails.swap();
    *next_fails = Fussy(3);
    assert_eq!(
        next_fails.debug_string(),
        Some(String::from("DoubleBuffer { current: fine, next: fine }"))
    );
}

#[test]
fn debug_frame_lays_out_both_parts() {
    assert_eq!(debug_frame("a", "b"), "DoubleBuffer { current: a, next: b }");
    assert_eq!(debug_frame("", ""), "DoubleBuffer { current: , next:  }");
    assert_eq!(
        debug_frame("[0, 2, 0]", "[0, 0, 0]"),
        "DoubleBuffer { current: [0, 2, 0], next: [0, 0, 0] }"
    );
}

#[test]
fn write_then_swap_scenario() {
    let mut buffer: DoubleBuffer<u32> = DoubleBuffer::new(1, 2);
    assert!(buffer == 1);

    *buffer = 3;
    assert!(buffer == 1);

    buffer.swap();
    assert!(buffer == 3);
    assert_eq!(*buffer.next(), 1);
}

#[test]
fn byte_array_scenario() {
    let mut buffer: DoubleBuffer<[u8; 3]> = DoubleBuffer::default();
    buffer[1] = 2;
    assert_eq!(*buffer.current(), [0, 0, 0]);
    assert_eq!(*buffer.next(), [0, 2, 0]);

    buffer.swap();
    assert_eq!(*buffer.current(), [0, 2, 0]);
}
