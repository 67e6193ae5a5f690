//! A minimal lazy-evaluation and memoization library.
//!
//! A [`source::Source`] is a producer of values: each call to `read` performs
//! one observation and may change the producer's state. Combinators compose
//! producers into pipelines, and a node wraps a producer so that it is read at
//! most once, caching the result and reporting lifecycle events to an injected
//! observer.

pub mod node;
pub mod probe;
pub mod source;
