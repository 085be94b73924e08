use std::borrow::Cow;
use std::collections::VecDeque;
use std::marker::PhantomData;
use std::mem::size_of;
use std::rc::Rc;
use std::sync::atomic::AtomicU64;
use std::sync::Arc;
use std::time::{Duration, Instant, SystemTime};

use get_size2::arith::{saturating_product, spare_capacity_bytes};
use get_size2::size::GetSize;
use get_size2::tracker::{GetSizeTracker, NoTracker, StandardTracker};
use get_size2::walk::{buffered_heap_size_with_tracker, listed_heap_size_with_tracker};

#[test]
fn boxed_slice() {
    let boxed = vec![1u8; 10].into_boxed_slice();
    assert_eq!(boxed.get_heap_size(), size_of::<u8>() * boxed.len());

    let boxed = vec![1u32; 10].into_boxed_slice();
    assert_eq!(boxed.get_heap_size(), size_of::<u32>() * boxed.len());

    let boxed = vec![&1u8; 10].into_boxed_slice();
    assert_eq!(boxed.get_heap_size(), size_of::<&u8>() * boxed.len());
}

#[test]
fn boxed_str() {
    let boxed: Box<str> = "a".repeat(1).into();
    assert_eq!(boxed.get_heap_size(), size_of::<u8>() * boxed.len());

    let rc: Rc<str> = "a".repeat(1).into();
    assert_eq!(rc.get_heap_size(), size_of::<u8>() * boxed.len());

    let arc: Arc<str> = "a".repeat(1).into();
    assert_eq!(arc.get_heap_size(), size_of::<u8>() * boxed.len());
}

#[test]
fn boxed_str_counts_bytes_not_characters() {
    let boxed: Box<str> = "häé".into();
    assert_eq!(boxed.get_heap_size(), 5);
}

#[test]
fn scalars_own_nothing() {
    assert_eq!(().get_heap_size(), 0);
    assert_eq!(true.get_heap_size(), 0);
    assert_eq!(7u8.get_heap_size(), 0);
    assert_eq!(7u16.get_heap_size(), 0);
    assert_eq!(7u32.get_heap_size(), 0);
    assert_eq!(7u64.get_heap_size(), 0);
    assert_eq!(7u128.get_heap_size(), 0);
    assert_eq!(7usize.get_heap_size(), 0);
    assert_eq!((-7i8).get_heap_size(), 0);
    assert_eq!((-7i16).get_heap_size(), 0);
    assert_eq!((-7i32).get_heap_size(), 0);
    assert_eq!((-7i64).get_heap_size(), 0);
    assert_eq!((-7i128).get_heap_size(), 0);
    assert_eq!((-7isize).get_heap_size(), 0);
    assert_eq!('x'.get_heap_size(), 0);
    assert_eq!(AtomicU64::new(3).get_heap_size(), 0);
    assert_eq!(PhantomData::<String>.get_heap_size(), 0);
    assert_eq!(Duration::from_secs(3).get_heap_size(), 0);
    assert_eq!(Instant::now().get_heap_size(), 0);
    assert_eq!(SystemTime::UNIX_EPOCH.get_heap_size(), 0);
}

#[test]
fn scalar_size_is_stack_size() {
    assert_eq!(7u8.get_size(), 1);
    assert_eq!(7u16.get_size(), 2);
    assert_eq!(7u32.get_size(), 4);
    assert_eq!(7u64.get_size(), 8);
    assert_eq!(7u128.get_size(), 16);
    assert_eq!('x'.get_size(), 4);
    assert_eq!(true.get_size(), 1);
    assert_eq!(().get_size(), 0);
    assert_eq!(u64::get_stack_size(), 8);
    assert_eq!(7usize.get_size(), usize::get_stack_size());
    assert_eq!(Duration::from_secs(3).get_size(), size_of::<Duration>());
}

#[test]
fn scalar_leaves_the_tracker_alone() {
    let mut tracker = StandardTracker::new();
    assert!(tracker.track(16, ()));
    let (bytes, mut tracker) = 7u64.get_heap_size_with_tracker(tracker);
    assert_eq!(bytes, 0);
    assert!(!tracker.track(16, ()));
    assert!(tracker.track(32, ()));

    let (bytes, _tracker) = 7u64.get_size_with_tracker(NoTracker::new());
    assert_eq!(bytes, 8);
}

#[test]
fn string_counts_its_capacity() {
    let mut text = String::with_capacity(100);
    text.push_str("Hello");
    assert_eq!(text.get_heap_size(), text.capacity());
    assert!(text.get_heap_size() >= 100);
    assert_eq!(text.get_size(), size_of::<String>() + text.capacity());

    let exact: String = "Hello".into();
    assert_eq!(exact.get_heap_size(), 5);
    assert_eq!(String::new().get_heap_size(), 0);
}

#[test]
fn vec_counts_capacity_not_length() {
    let mut buffer: Vec<u32> = Vec::with_capacity(64);
    let capacity = buffer.capacity();
    assert_eq!(buffer.get_heap_size(), capacity * 4);
    buffer.extend([1, 2, 3]);
    assert_eq!(buffer.capacity(), capacity);
    assert_eq!(buffer.get_heap_size(), capacity * 4);
    buffer.truncate(1);
    assert_eq!(buffer.get_heap_size(), capacity * 4);
    buffer.clear();
    assert_eq!(buffer.get_heap_size(), capacity * 4);
}

#[test]
fn vec_counts_what_its_items_own() {
    let mut names: Vec<String> = Vec::with_capacity(4);
    names.push("Hello".into());
    names.push("world!".into());
    let expected = 4 * size_of::<String>() + 5 + 6;
    assert_eq!(names.capacity(), 4);
    assert_eq!(names.get_heap_size(), expected);
    assert_eq!(names.get_size(), size_of::<Vec<String>>() + expected);
}

#[test]
fn vec_deque_counts_capacity() {
    let mut queue: VecDeque<u16> = VecDeque::with_capacity(16);
    queue.push_back(1);
    queue.push_front(2);
    assert_eq!(queue.get_heap_size(), queue.capacity() * 2);

    let mut texts: VecDeque<String> = VecDeque::new();
    texts.push_back("abc".into());
    assert_eq!(texts.get_heap_size(), texts.capacity() * size_of::<String>() + 3);
}

#[test]
fn array_counts_what_its_items_own() {
    let texts: [String; 3] = ["a".into(), "bc".into(), "def".into()];
    assert_eq!(texts.get_heap_size(), 6);
    assert_eq!(texts.get_size(), 3 * size_of::<String>() + 6);
    assert_eq!([1u64; 27].get_heap_size(), 0);
    let empty: [String; 0] = [];
    assert_eq!(empty.get_heap_size(), 0);
}

#[test]
fn box_counts_the_whole_value() {
    assert_eq!(Box::new(7u64).get_heap_size(), 8);
    let text: Box<String> = Box::new("Hello".into());
    assert_eq!(text.get_heap_size(), size_of::<String>() + 5);
    assert_eq!(text.get_size(), size_of::<Box<String>>() + size_of::<String>() + 5);
}

#[test]
fn option_and_result_count_what_they_hold() {
    let none: Option<String> = None;
    assert_eq!(none.get_heap_size(), 0);
    let some: Option<String> = Some("Hello".into());
    assert_eq!(some.get_heap_size(), 5);

    let ok: Result<String, u8> = Ok("Hello".into());
    assert_eq!(ok.get_heap_size(), 5);
    let err: Result<u8, String> = Err("failed".into());
    assert_eq!(err.get_heap_size(), 6);
    let plain: Result<u8, String> = Ok(3);
    assert_eq!(plain.get_heap_size(), 0);
}

#[test]
fn tuples_count_what_their_components_own() {
    let one: (String,) = ("Hello".into(),);
    assert_eq!(one.get_heap_size(), 5);
    let pair: (String, u64) = ("Hello".into(), 123);
    assert_eq!(pair.get_heap_size(), 5);
    assert_eq!(pair.get_size(), size_of::<(String, u64)>() + 5);
    let triple: (String, Vec<u16>, String) = ("a".into(), vec![1, 2, 3], "bc".into());
    assert_eq!(triple.get_heap_size(), 1 + 6 + 2);
    let wide = (
        String::from("a"),
        1u8,
        String::from("bb"),
        2u16,
        String::from("ccc"),
        3u32,
        String::from("dddd"),
        4u64,
        String::from("eeeee"),
        5i8,
        String::from("f"),
        6i16,
        String::from("g"),
        7i32,
        String::from("h"),
        8i64,
    );
    assert_eq!(wide.get_heap_size(), 1 + 2 + 3 + 4 + 5 + 1 + 1 + 1);
}

#[test]
fn cow_counts_only_what_it_owns() {
    let text = String::from("Hello");
    let borrowed: Cow<'_, str> = Cow::Borrowed(&text);
    assert_eq!(borrowed.get_heap_size(), 0);
    let owned: Cow<'_, str> = Cow::Owned(text.clone());
    assert_eq!(owned.get_heap_size(), 5);
    let items: Cow<'_, [u32]> = Cow::Owned(vec![1, 2, 3]);
    assert_eq!(items.get_heap_size(), 12);
}

#[test]
fn ranges_count_what_their_bounds_own() {
    assert_eq!((1u64..5).get_heap_size(), 0);
    assert_eq!((String::from("a")..String::from("bcd")).get_heap_size(), 4);
    assert_eq!((String::from("a")..=String::from("bcd")).get_heap_size(), 4);
    assert_eq!((String::from("ab")..).get_heap_size(), 2);
    assert_eq!((..String::from("abc")).get_heap_size(), 3);
    assert_eq!((..=String::from("abcd")).get_heap_size(), 4);
    assert_eq!((..).get_heap_size(), 0);
}

#[test]
fn references_own_nothing() {
    let text = String::from("hello");
    assert_eq!(text.get_heap_size(), 5);
    assert_eq!(GetSize::get_heap_size(&&text), 0);
    assert_eq!(GetSize::get_size(&&text), size_of::<&String>());

    let mut other = String::from("a large text that is owned elsewhere");
    let unique: &mut String = &mut other;
    assert_eq!(GetSize::get_heap_size(&unique), 0);

    let items: &[String] = &[text.clone(), text.clone()];
    assert_eq!(GetSize::get_heap_size(&items), 0);
    let literal: &str = "Hello world!";
    assert_eq!(GetSize::get_heap_size(&literal), 0);
}

#[test]
fn sizes_saturate() {
    assert_eq!(saturating_product(usize::MAX, 2), usize::MAX);
    assert_eq!(saturating_product(0, usize::MAX), 0);
    assert_eq!(saturating_product(6, 7), 42);
    assert_eq!(spare_capacity_bytes(10, 4, 8), 48);
    assert_eq!(spare_capacity_bytes(4, 4, 8), 0);
    assert_eq!(spare_capacity_bytes(3, 4, 8), 0);
    assert_eq!(spare_capacity_bytes(usize::MAX, 0, 8), usize::MAX);

    // A vector of zero-sized items reports a capacity of `usize::MAX`.
    let units: Vec<()> = vec![(), ()];
    assert_eq!(units.capacity(), usize::MAX);
    assert_eq!(units.get_heap_size(), 0);
    assert_eq!(units.get_size(), size_of::<Vec<()>>());
}

#[test]
fn walks_add_up_total_sizes() {
    let items = vec![String::from("a"), String::from("bc")];
    let (listed, _) = listed_heap_size_with_tracker(items.iter(), items.len(), NoTracker::new());
    assert_eq!(listed, 2 * size_of::<String>() + 3);
    let (buffered, _) =
        buffered_heap_size_with_tracker(10, items.iter(), items.len(), NoTracker::new());
    assert_eq!(buffered, 10 * size_of::<String>() + 3);
    // No more items are read than the collection is said to hold.
    let (one, _) = listed_heap_size_with_tracker(items.iter(), 1, NoTracker::new());
    assert_eq!(one, size_of::<String>() + 1);
    let (none, _) = listed_heap_size_with_tracker(items.iter(), 0, NoTracker::new());
    assert_eq!(none, 0);
    let (all, _) = listed_heap_size_with_tracker(items.iter(), 5, NoTracker::new());
    assert_eq!(all, 2 * size_of::<String>() + 3);
}
