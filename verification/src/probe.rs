//! Deterministic instruments: a producer that counts its reads and observers
//! that count their lifecycle notifications. They make the library's
//! read-once and notify-once guarantees observable from outside.

use vstd::prelude::*;

use crate::node::LifecycleManager;
use crate::source::Source;

verus! {

/// The successor of a tally, wrapping at the top of the counter's range.
pub open spec fn next_count(count: u64) -> u64 {
    if count == u64::MAX {
        0
    } else {
        (count + 1) as u64
    }
}

/// A producer that counts its reads and yields the running count: the first
/// read yields 1, the next 2, and so on. How often a producer was read is
/// thereby visible both in its state and in its output.
pub struct CountingSource {
    /// How many reads have been performed.
    pub reads: u64,
}

impl Source<u64> for CountingSource {
    /// Any tally is a well-formed state.
    open spec fn wf(&self) -> bool {
        true
    }

    /// One read advances the tally by one, wrapping at the top of the range,
    /// and yields the new tally.
    open spec fn yields(pre: Self, post: Self, value: u64) -> bool {
        &&& post.reads == next_count(pre.reads)
        &&& value == post.reads
    }

    fn read(&mut self) -> (value: u64) {
        self.reads = if self.reads == u64::MAX {
            0
        } else {
            self.reads + 1
        };
        self.reads
    }
}

/// An observer that ignores both lifecycle hooks.
pub struct NoopManager;

impl<ValueType> LifecycleManager<ValueType> for NoopManager {
    /// The observer has no state to constrain.
    open spec fn wf(&self) -> bool {
        true
    }

    /// `init` leaves the observer as it was.
    open spec fn inited(pre: Self, post: Self) -> bool {
        post == pre
    }

    /// `update` leaves the observer as it was.
    open spec fn updated(pre: Self, post: Self, value: ValueType) -> bool {
        post == pre
    }

    fn init(&mut self) {
    }

    fn update(&mut self, _new_value: &ValueType) {
    }
}

/// An observer that counts how often each lifecycle hook ran and records the
/// value the latest `update` was handed.
pub struct TallyManager<ValueType> {
    /// How many times `init` ran.
    pub inits: u64,
    /// How many times `update` ran.
    pub updates: u64,
    /// The value the latest `update` was handed, if any ran.
    pub last_update: Option<ValueType>,
}

impl<ValueType: Copy> LifecycleManager<ValueType> for TallyManager<ValueType> {
    /// Any pair of tallies is a well-formed state.
    open spec fn wf(&self) -> bool {
        true
    }

    /// `init` advances the `init` tally by one, wrapping at the top of the
    /// range, and touches nothing else.
    open spec fn inited(pre: Self, post: Self) -> bool {
        &&& post.inits == next_count(pre.inits)
        &&& post.updates == pre.updates
        &&& post.last_update == pre.last_update
    }

    /// `update` advances the `update` tally by one, wrapping at the top of
    /// the range, records the value it was handed, and touches nothing else.
    open spec fn updated(pre: Self, post: Self, value: ValueType) -> bool {
        &&& post.inits == pre.inits
        &&& post.updates == next_count(pre.updates)
        &&& post.last_update == Some(value)
    }

    fn init(&mut self) {
        self.inits = if self.inits == u64::MAX {
            0
        } else {
            self.inits + 1
        };
    }

    fn update(&mut self, new_value: &ValueType) {
        self.updates = if self.updates == u64::MAX {
            0
        } else {
            self.updates + 1
        };
        self.last_update = Some(*new_value);
    }
}

} // verus!
