use std::cell::RefCell;
use std::mem::size_of;
use std::rc::Rc;
use std::sync::Arc;

use get_size2::derive::generate::{derive_get_size, ImplBody, Step};
use get_size2::derive::shape::{Data, DeriveInput, Field, Fields, StructFieldAttribute};
use get_size2::shared::{strong_heap_size_with_tracker, weak_heap_size_with_tracker};
use get_size2::size::GetSize;
use get_size2::tracker::{GetSizeTracker, NoTracker, StandardTracker};

#[test]
fn standard_tracker_reports_each_block_once() {
    let mut tracker = StandardTracker::new();
    assert!(tracker.track(0x1000, ()));
    assert!(!tracker.track(0x1000, ()));
    assert!(tracker.track(0x2000, ()));
    assert!(!tracker.track(0x1000, ()));
    assert!(!tracker.track(0x2000, ()));
    assert!(tracker.track(0, ()));
    assert!(tracker.track(usize::MAX, ()));
    assert!(!tracker.track(usize::MAX, ()));
}

#[test]
fn standard_tracker_forgets_when_cleared() {
    let mut tracker = StandardTracker::default();
    assert!(tracker.track(7, "handle"));
    assert!(!tracker.track(7, "handle"));
    tracker.clear();
    assert!(tracker.track(7, "handle"));
}

#[test]
fn no_tracker_takes_every_block_for_new() {
    let mut tracker = NoTracker::new();
    assert!(tracker.track(0x1000, ()));
    assert!(tracker.track(0x1000, ()));
    let mut tracker = NoTracker::default();
    assert!(tracker.track(0x1000, ()));
}

#[test]
fn strong_handle_counts_the_whole_target() {
    let number = Rc::new(42u64);
    assert_eq!(number.get_heap_size(), 8);
    assert_eq!(number.get_size(), size_of::<Rc<u64>>() + 8);

    let text = Arc::new(String::from("Hello"));
    assert_eq!(text.get_heap_size(), size_of::<String>() + 5);

    let shared_data: Arc<Vec<u8>> = Arc::new(Vec::with_capacity(1024));
    assert_eq!(shared_data.get_heap_size(), Vec::<u8>::get_stack_size() + 1024);
}

#[test]
fn first_strong_handle_pays_and_later_ones_do_not() {
    let text = String::from("Hello");
    let (first, tracker) = strong_heap_size_with_tracker(0x1000, (), &text, StandardTracker::new());
    assert_eq!(first, size_of::<String>() + 5);
    let (second, tracker) = strong_heap_size_with_tracker(0x1000, (), &text, tracker);
    assert_eq!(second, 0);
    let (other, _tracker) = strong_heap_size_with_tracker(0x2000, (), &text, tracker);
    assert_eq!(other, size_of::<String>() + 5);

    let (first, tracker) = strong_heap_size_with_tracker(0x1000, (), &text, NoTracker::new());
    let (second, _tracker) = strong_heap_size_with_tracker(0x1000, (), &text, tracker);
    assert_eq!(first, size_of::<String>() + 5);
    assert_eq!(second, size_of::<String>() + 5);
}

#[test]
fn shared_block_is_counted_once_in_a_tuple() {
    let text = Rc::new(String::from("Hello"));
    let one = (Rc::clone(&text),);
    let both = (Rc::clone(&text), Rc::clone(&text));
    assert_eq!(one.get_heap_size(), size_of::<String>() + 5);
    assert_eq!(both.get_heap_size(), one.get_heap_size());

    let apart = (Rc::new(String::from("Hello")), Rc::new(String::from("Hello")));
    assert_eq!(apart.get_heap_size(), 2 * (size_of::<String>() + 5));

    let (untracked, _) = both.get_heap_size_with_tracker(NoTracker::new());
    assert_eq!(untracked, 2 * (size_of::<String>() + 5));
}

#[test]
fn shared_block_is_counted_once_in_a_vector() {
    let buffer: Arc<Vec<u8>> = Arc::new(Vec::with_capacity(1024));
    let mut handles = Vec::with_capacity(3);
    handles.push(Arc::clone(&buffer));
    handles.push(Arc::clone(&buffer));
    handles.push(buffer);
    assert_eq!(
        handles.get_heap_size(),
        3 * size_of::<Arc<Vec<u8>>>() + size_of::<Vec<u8>>() + 1024
    );
}

#[test]
fn tracker_is_handed_on_between_measurements() {
    let text = Rc::new(String::from("Hello"));
    let (first, tracker) = text.get_heap_size_with_tracker(StandardTracker::new());
    assert_eq!(first, size_of::<String>() + 5);
    let other = Rc::clone(&text);
    let (second, tracker) = other.get_heap_size_with_tracker(tracker);
    assert_eq!(second, 0);
    let (size, _tracker) = other.get_size_with_tracker(tracker);
    assert_eq!(size, size_of::<Rc<String>>());
}

struct Bundle {
    id: u64,
    first: Arc<Vec<u8>>,
    second: Arc<Vec<u8>>,
}

fn named(name: &str) -> Field {
    Field {
        ident: Some(name.to_string()),
        attribute: StructFieldAttribute { size: None, size_fn: None, ignore: false },
        type_params: Vec::new(),
    }
}

fn bundle_input() -> DeriveInput {
    DeriveInput {
        attrs: Vec::new(),
        ident: "Bundle".to_string(),
        generics: Vec::new(),
        data: Data::Struct(Fields::Named(vec![named("id"), named("first"), named("second")])),
    }
}

impl GetSize for Bundle {
    fn get_heap_size_with_tracker<T: GetSizeTracker>(&self, tracker: T) -> (usize, T) {
        let generated = derive_get_size(bundle_input()).expect("the definition is accepted");
        generated.body.get_heap_size_with_tracker(
            0,
            &|field: usize, tracker: T| match field {
                0 => self.id.get_heap_size_with_tracker(tracker),
                1 => self.first.get_heap_size_with_tracker(tracker),
                2 => self.second.get_heap_size_with_tracker(tracker),
                _ => unreachable!(),
            },
            &|_field: usize| unreachable!(),
            tracker,
        )
    }
}

#[test]
fn struct_with_two_handles_to_one_buffer_counts_it_once() {
    let shared_data: Arc<Vec<u8>> = Arc::new(Vec::with_capacity(1024));
    let bundle = Bundle { id: 1, first: Arc::clone(&shared_data), second: Arc::clone(&shared_data) };
    assert_eq!(bundle.id, 1);
    assert_eq!(bundle.get_heap_size(), Vec::<u8>::get_stack_size() + 1024);
    assert_eq!(bundle.get_heap_size(), shared_data.get_heap_size());

    let apart = Bundle {
        id: 2,
        first: Arc::new(Vec::with_capacity(1024)),
        second: Arc::new(Vec::with_capacity(1024)),
    };
    assert_eq!(apart.get_heap_size(), 2 * (Vec::<u8>::get_stack_size() + 1024));
    assert_eq!(
        derive_get_size(bundle_input()).unwrap().body,
        ImplBody::Struct(vec![
            Step::Recurse { field: 0 },
            Step::Recurse { field: 1 },
            Step::Recurse { field: 2 },
        ])
    );
}

struct Node {
    payload: String,
    next: RefCell<Option<Rc<Node>>>,
}

impl GetSize for Node {
    fn get_heap_size_with_tracker<T: GetSizeTracker>(&self, tracker: T) -> (usize, T) {
        let (payload, tracker) = self.payload.get_heap_size_with_tracker(tracker);
        let (next, tracker) = self.next.borrow().get_heap_size_with_tracker(tracker);
        (payload + next, tracker)
    }
}

#[test]
fn cycle_of_shared_nodes_is_measured_in_finite_time() {
    let first = Rc::new(Node { payload: "first".into(), next: RefCell::new(None) });
    let second =
        Rc::new(Node { payload: "second".into(), next: RefCell::new(Some(Rc::clone(&first))) });
    *first.next.borrow_mut() = Some(Rc::clone(&second));

    let expected = 2 * size_of::<Node>() + 5 + 6;
    assert_eq!(first.get_heap_size(), expected);
    assert_eq!(second.get_heap_size(), expected);

    let alone = Rc::new(Node { payload: "alone".into(), next: RefCell::new(None) });
    *alone.next.borrow_mut() = Some(Rc::clone(&alone));
    assert_eq!(alone.get_heap_size(), size_of::<Node>() + 5);

    // Take the cycles apart again, so that the nodes are freed.
    *first.next.borrow_mut() = None;
    *alone.next.borrow_mut() = None;
}

#[test]
fn weak_handle_owns_nothing() {
    let strong = Rc::new(String::from("a large text that is owned elsewhere"));
    let weak = Rc::downgrade(&strong);
    let mut tracker = StandardTracker::new();
    assert!(tracker.track(16, ()));
    let (bytes, mut tracker) = weak_heap_size_with_tracker(&weak, tracker);
    assert_eq!(bytes, 0);
    assert!(!tracker.track(16, ()));
    assert!(tracker.track(Rc::as_ptr(&strong) as usize, ()));

    drop(strong);
    let (bytes, _tracker) = weak_heap_size_with_tracker(&weak, tracker);
    assert_eq!(bytes, 0);
    assert!(weak.upgrade().is_none());
}

#[test]
fn standard_tracker_keeps_recorded_blocks_alive() {
    let block = Rc::new(5u8);
    let addr = Rc::as_ptr(&block) as usize;
    let mut tracker = StandardTracker::new();
    assert!(tracker.track(addr, Rc::clone(&block)));
    assert_eq!(Rc::strong_count(&block), 2);
    assert!(!tracker.track(addr, Rc::clone(&block)));
    assert_eq!(Rc::strong_count(&block), 2);
    tracker.clear();
    assert_eq!(Rc::strong_count(&block), 1);

    let (bytes, tracker) = block.get_heap_size_with_tracker(tracker);
    assert_eq!(bytes, 1);
    assert_eq!(Rc::strong_count(&block), 2);
    drop(tracker);
    assert_eq!(Rc::strong_count(&block), 1);

    assert_eq!(block.get_heap_size(), 1);
    assert_eq!(Rc::strong_count(&block), 1);
}

struct Chain {
    value: u64,
    next: Option<Box<Chain>>,
}

impl GetSize for Chain {
    fn get_heap_size_with_tracker<T: GetSizeTracker>(&self, tracker: T) -> (usize, T) {
        let (value, tracker) = self.value.get_heap_size_with_tracker(tracker);
        let (next, tracker) = self.next.get_heap_size_with_tracker(tracker);
        (value + next, tracker)
    }
}

#[test]
fn owned_chain_counts_every_link() {
    let mut chain = Chain { value: 0, next: None };
    for value in 1..100 {
        chain = Chain { value, next: Some(Box::new(chain)) };
    }
    assert_eq!(chain.value, 99);
    assert_eq!(chain.get_heap_size(), 99 * size_of::<Chain>());
    assert_eq!(chain.get_size(), 100 * size_of::<Chain>());
}
