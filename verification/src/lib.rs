//! Build a fixed-size array incrementally, deferring count mismatches to a
//! single build call.
//!
//! An [`ArrayBuilder`] accumulates up to `N` items pushed one at a time.
//! Pushes beyond capacity are discarded and counted as excess. A build
//! operation then either assembles the accumulated items into a `[T; N]` or
//! reports the mismatch between the expected and the actual number of pushes:
//! [`ArrayBuilder::build_exact`] demands exactly `N` pushes,
//! [`ArrayBuilder::build_pad`] fills the remaining slots with clones of a pad
//! item, [`ArrayBuilder::build_truncate`] forgives excess pushes, and
//! [`ArrayBuilder::build_pad_truncate`] forgives both directions.

pub mod builder;
pub mod errors;
pub mod laws;

pub use builder::new;
pub use builder::ArrayBuilder;
pub use errors::Error;
