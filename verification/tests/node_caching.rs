//! The memoizing node: cache behaviour and lifecycle notifications.

use std::cell::RefCell;
use std::rc::Rc;

use lazy_sources::node::{LifecycleManager, Node};
use lazy_sources::probe::{CountingSource, NoopManager, TallyManager};
use lazy_sources::source::Source;

/// A producer that appends an event to a shared log on every read and yields
/// a fixed value.
struct LoggingSource {
    log: Rc<RefCell<Vec<String>>>,
    value: u64,
}

impl Source<u64> for LoggingSource {
    fn wf(&self) -> bool {
        true
    }

    fn yields(_pre: Self, _post: Self, _value: u64) -> bool {
        true
    }

    fn read(&mut self) -> u64 {
        self.log.borrow_mut().push(String::from("read"));
        self.value
    }
}

/// An observer that appends each hook invocation to a shared log, recording
/// the value `update` was handed.
struct LoggingManager {
    log: Rc<RefCell<Vec<String>>>,
}

impl LifecycleManager<u64> for LoggingManager {
    fn wf(&self) -> bool {
        true
    }

    fn inited(_pre: Self, _post: Self) -> bool {
        true
    }

    fn updated(_pre: Self, _post: Self, _value: u64) -> bool {
        true
    }

    fn init(&mut self) {
        self.log.borrow_mut().push(String::from("init"));
    }

    fn update(&mut self, new_value: &u64) {
        self.log.borrow_mut().push(format!("update {}", new_value));
    }
}

#[test]
fn first_query_reads_once_later_queries_read_nothing() {
    let source = CountingSource { reads: 0 };
    let mut node = Node::new(source, NoopManager);
    assert_eq!(*node.query(), 1);
    assert_eq!(*node.query(), 1);
    assert_eq!(*node.query(), 1);
}

#[test]
fn query_copying_caches_like_query() {
    let source = CountingSource { reads: 0 };
    let mut node = Node::new(source, NoopManager);
    assert_eq!(node.query_copying(), 1);
    assert_eq!(node.query_copying(), 1);
}

#[test]
fn query_cloning_caches_over_producer_change() {
    // The producer would yield 2 on a second read; the cached first
    // observation is handed out instead.
    let source = CountingSource { reads: 0 };
    let mut node = Node::new(source, NoopManager);
    assert_eq!(node.query_cloning(), 1);
    assert_eq!(node.query_cloning(), 1);
}

#[test]
fn init_runs_once_at_construction_before_any_read() {
    let log = Rc::new(RefCell::new(Vec::new()));
    let source = LoggingSource { log: Rc::clone(&log), value: 7 };
    let manager = LoggingManager { log: Rc::clone(&log) };
    let mut node = Node::new(source, manager);
    assert_eq!(*log.borrow(), vec![String::from("init")]);
    node.query();
    assert_eq!(
        *log.borrow(),
        vec![String::from("init"), String::from("read"), String::from("update 7")]
    );
}

#[test]
fn update_runs_once_with_the_first_query_result() {
    let log = Rc::new(RefCell::new(Vec::new()));
    let source = LoggingSource { log: Rc::clone(&log), value: 9 };
    let manager = LoggingManager { log: Rc::clone(&log) };
    let mut node = Node::new(source, manager);
    assert_eq!(*node.query(), 9);
    node.query();
    node.query_copying();
    node.query_cloning();
    assert_eq!(
        *log.borrow(),
        vec![String::from("init"), String::from("read"), String::from("update 9")]
    );
}

#[test]
fn node_is_never_constructed_with_a_value() {
    let log = Rc::new(RefCell::new(Vec::new()));
    let source = LoggingSource { log: Rc::clone(&log), value: 3 };
    let manager = LoggingManager { log: Rc::clone(&log) };
    let _node = Node::new(source, manager);
    // Construction alone never reads the producer.
    assert_eq!(*log.borrow(), vec![String::from("init")]);
}

#[test]
fn tally_manager_counts_hooks_and_records_the_last_value() {
    let mut manager = TallyManager { inits: 0, updates: 0, last_update: None };
    manager.init();
    assert_eq!(manager.inits, 1);
    assert_eq!(manager.updates, 0);
    manager.update(&5u64);
    manager.update(&8u64);
    assert_eq!(manager.inits, 1);
    assert_eq!(manager.updates, 2);
    assert_eq!(manager.last_update, Some(8));
}
