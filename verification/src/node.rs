//! The memoizing node and the lifecycle observer it notifies.

use vstd::prelude::*;

pub use crate::source::Source;

verus! {

/// An observer of a node's lifecycle.
///
/// A node calls `init` exactly once, while it is constructed and before any
/// value exists, and `update` exactly once, on the first materialization,
/// with a reference to the freshly cached value.
///
/// The contract of each hook is relational: `inited(pre, post)` (resp.
/// `updated(pre, post, value)`) says that the call taken in state `pre` may
/// leave the observer in state `post`. A concrete observer pins the
/// transition down exactly, so a caller of the node can tell from the node's
/// contracts precisely how often, and with what, each hook ran.
pub trait LifecycleManager<ValueType>: Sized {
    /// Well-formedness of the observer's state, preserved by both hooks.
    spec fn wf(&self) -> bool;

    /// The effect of one `init` call taken in state `pre`.
    spec fn inited(pre: Self, post: Self) -> bool;

    /// The effect of one `update` call taken in state `pre` and handed
    /// `value`.
    spec fn updated(pre: Self, post: Self, value: ValueType) -> bool;

    /// Called once, during the node's construction.
    fn init(&mut self)
        requires
            old(self).wf(),
        ensures
            final(self).wf(),
            Self::inited(*old(self), *final(self)),
    ;

    /// Called once, on the node's first materialization, with the value that
    /// was just cached.
    fn update(&mut self, new_value: &ValueType)
        requires
            old(self).wf(),
        ensures
            final(self).wf(),
            Self::updated(*old(self), *final(self), *new_value),
    ;
}

/// A memoizing decorator around a single producer.
///
/// The node owns the producer for its lifetime and holds at most one cached
/// observation: absent until the first query, then present and never re-read.
/// Whatever the producer hands back is cached as it is; a failure-carrying
/// value is treated no differently from a success.
pub struct Node<ValueType, S, M> {
    source: S,
    value: Option<ValueType>,
    lifecycle_manager: M,
}

impl<ValueType, S: Source<ValueType>, M: LifecycleManager<ValueType>> Node<ValueType, S, M> {
    /// The wrapped producer's state.
    pub closed spec fn producer(&self) -> S {
        self.source
    }

    /// The cached observation: absent until the first query.
    pub closed spec fn cached(&self) -> Option<ValueType> {
        self.value
    }

    /// The injected observer's state.
    pub closed spec fn observer(&self) -> M {
        self.lifecycle_manager
    }

    /// The node is well-formed when its producer and its observer are.
    pub open spec fn wf(&self) -> bool {
        &&& self.producer().wf()
        &&& self.observer().wf()
    }

    /// Wraps `source` in a fresh, empty node. The observer's `init` hook runs
    /// here, before any value exists, whether or not the node is ever
    /// queried; the producer is not read.
    pub fn new(source: S, lifecycle_manager: M) -> (node: Self)
        requires
            source.wf(),
            lifecycle_manager.wf(),
        ensures
            node.wf(),
            node.cached() == None::<ValueType>,
            node.producer() == source,
            M::inited(lifecycle_manager, node.observer()),
    {
        let mut manager = lifecycle_manager;
        manager.init();
        Node { source, value: None, lifecycle_manager: manager }
    }

    /// Queries the node, handing back a read-only view of the cached value.
    ///
    /// The first query performs the node's one read of the producer, caches
    /// the observation and notifies the observer's `update` hook with it;
    /// every later query hands the cached value back with the producer and
    /// the observer untouched.
    pub fn query(&mut self) -> (value: &ValueType)
        requires
            old(self).wf(),
        ensures
            final(self).wf(),
            final(self).cached() == Some(*value),
            match old(self).cached() {
                Some(v) => *value == v && *final(self) == *old(self),
                None => {
                    &&& S::yields(old(self).producer(), final(self).producer(), *value)
                    &&& M::updated(old(self).observer(), final(self).observer(), *value)
                },
            },
    {
        if self.value.is_none() {
            let fresh = self.source.read();
            self.value = Some(fresh);
            match &self.value {
                Some(value) => self.lifecycle_manager.update(value),
                None => (),
            }
        }
        match &self.value {
            Some(value) => value,
            None => unreached(),
        }
    }
}

impl<ValueType: Copy, S: Source<ValueType>, M: LifecycleManager<ValueType>> Node<
    ValueType,
    S,
    M,
> {
    /// Queries the node, handing back an independent copy of the cached
    /// value, so the result outlives the node.
    ///
    /// Fill-on-first-query behaves exactly as in `query`: the first query
    /// performs the node's one read, caches the observation and notifies the
    /// observer's `update` hook with it; every later query copies the cached
    /// value out with the producer and the observer untouched.
    pub fn query_copying(&mut self) -> (value: ValueType)
        requires
            old(self).wf(),
        ensures
            final(self).wf(),
            final(self).cached() == Some(value),
            match old(self).cached() {
                Some(v) => value == v && *final(self) == *old(self),
                None => {
                    &&& S::yields(old(self).producer(), final(self).producer(), value)
                    &&& M::updated(old(self).observer(), final(self).observer(), value)
                },
            },
    {
        match self.value {
            Some(value) => value,
            None => {
                let value = self.source.read();
                self.value = Some(value);
                self.lifecycle_manager.update(&value);
                value
            },
        }
    }
}

impl<ValueType: Clone, S: Source<ValueType>, M: LifecycleManager<ValueType>> Node<
    ValueType,
    S,
    M,
> {
    /// Queries the node, handing back an independently owned deep copy of the
    /// cached value, as the value's own `Clone` implementation makes it.
    ///
    /// Fill-on-first-query behaves exactly as in `query`: the first query
    /// performs the node's one read, caches the observation and notifies the
    /// observer's `update` hook with it; every later query leaves the node,
    /// its producer and its observer untouched. The cached value itself stays
    /// in the node; only the clone is handed out.
    pub fn query_cloning(&mut self) -> (value: ValueType)
        requires
            old(self).wf(),
        ensures
            final(self).wf(),
            match old(self).cached() {
                Some(v) => {
                    &&& *final(self) == *old(self)
                    &&& cloned::<ValueType>(v, value)
                },
                None => {
                    &&& final(self).cached() matches Some(v)
                    &&& S::yields(old(self).producer(), final(self).producer(), v)
                    &&& M::updated(old(self).observer(), final(self).observer(), v)
                    &&& cloned::<ValueType>(v, value)
                },
            },
    {
        if self.value.is_none() {
            let fresh = self.source.read();
            self.value = Some(fresh);
            match &self.value {
                Some(value) => self.lifecycle_manager.update(value),
                None => (),
            }
        }
        match &self.value {
            Some(value) => value.clone(),
            None => unreached(),
        }
    }
}

} // verus!
