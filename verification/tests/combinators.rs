//! The producer combinators: transformation, duplication, pairing and
//! ordered aggregation.

use std::cell::RefCell;
use std::rc::Rc;

use lazy_sources::probe::CountingSource;
use lazy_sources::source::{duplicate, join, parallel, Source};

/// A producer that appends its tag to a shared log on every read and yields
/// a fixed value.
struct TaggedSource {
    log: Rc<RefCell<Vec<u8>>>,
    tag: u8,
    value: u64,
}

impl Source<u64> for TaggedSource {
    fn wf(&self) -> bool {
        true
    }

    fn yields(_pre: Self, _post: Self, _value: u64) -> bool {
        true
    }

    fn read(&mut self) -> u64 {
        self.log.borrow_mut().push(self.tag);
        self.value
    }
}

/// A producer of owned text, rebuilt on every read.
struct TextSource {
    text: String,
}

impl Source<String> for TextSource {
    fn wf(&self) -> bool {
        true
    }

    fn yields(_pre: Self, _post: Self, _value: String) -> bool {
        true
    }

    fn read(&mut self) -> String {
        self.text.clone()
    }
}

#[test]
fn map_transforms_each_observation() {
    let source = CountingSource { reads: 0 };
    let mut mapped = lazy_sources::source::map(source, |x: u64| 10 * x);
    assert_eq!(mapped.read(), 10);
    assert_eq!(mapped.read(), 20);
}

#[test]
fn duplicate_yields_the_single_observation_twice() {
    let source = CountingSource { reads: 41 };
    let mut doubled = duplicate(source);
    assert_eq!(doubled.read(), (42, 42));
    // One read of the pair is one read of the inner producer.
    assert_eq!(doubled.read(), (43, 43));
}

#[test]
fn clone_yields_equal_but_independent_values() {
    let source = TextSource { text: String::from("abc") };
    let mut cloned = lazy_sources::source::clone(source);
    let (mut first, second) = cloned.read();
    assert_eq!(first, "abc");
    assert_eq!(second, "abc");
    first.push_str("!");
    // The halves are independently owned: changing one leaves the other.
    assert_eq!(first, "abc!");
    assert_eq!(second, "abc");
}

#[test]
fn join_pairs_the_two_observations() {
    let log = Rc::new(RefCell::new(Vec::new()));
    let first = TaggedSource { log: Rc::clone(&log), tag: 1, value: 10 };
    let second = TaggedSource { log: Rc::clone(&log), tag: 2, value: 20 };
    let mut joined = join(first, second);
    assert_eq!(joined.read(), (10, 20));
}

#[test]
fn join_reads_the_first_producer_strictly_before_the_second() {
    let log = Rc::new(RefCell::new(Vec::new()));
    let first = TaggedSource { log: Rc::clone(&log), tag: 1, value: 10 };
    let second = TaggedSource { log: Rc::clone(&log), tag: 2, value: 20 };
    let mut joined = join(first, second);
    joined.read();
    joined.read();
    assert_eq!(*log.borrow(), vec![1, 2, 1, 2]);
}

#[test]
fn bimap_applies_each_function_to_its_own_half() {
    let first = CountingSource { reads: 2 };
    let second = CountingSource { reads: 100 };
    let joined = join(first, second);
    let mut bimapped = lazy_sources::source::bimap(joined, |a: u64| a * 2, |b: u64| b > 50);
    // One read observes 3 and 101: the pair is (f(3), g(101)).
    assert_eq!(bimapped.read(), (6, true));
}

#[test]
fn parallel_reads_every_producer_once_in_order() {
    let log = Rc::new(RefCell::new(Vec::new()));
    let sources = vec![
        TaggedSource { log: Rc::clone(&log), tag: 1, value: 10 },
        TaggedSource { log: Rc::clone(&log), tag: 2, value: 20 },
        TaggedSource { log: Rc::clone(&log), tag: 3, value: 30 },
    ];
    let mut aggregated = parallel(sources);
    assert_eq!(aggregated.read(), vec![10, 20, 30]);
    assert_eq!(*log.borrow(), vec![1, 2, 3]);
}

#[test]
fn parallel_of_no_producers_yields_an_empty_aggregate() {
    let sources: Vec<CountingSource> = Vec::new();
    let mut aggregated = parallel(sources);
    assert_eq!(aggregated.read(), Vec::<u64>::new());
}

#[test]
fn nested_combinators_compose() {
    let source = CountingSource { reads: 0 };
    let mapped = lazy_sources::source::map(source, |x: u64| x + 1);
    let mut doubled = duplicate(mapped);
    assert_eq!(doubled.read(), (2, 2));
}
