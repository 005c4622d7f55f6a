//! A mode-polymorphic dispatcher for units of asynchronous work.
//!
//! The same calling code can submit work to a shared multi-threaded execution
//! engine running on a background thread, run it inline on the calling thread
//! for deterministic tests, or give every unit its own dedicated thread for
//! isolation tests. A timeout-racing primitive and a lifecycle handle with a
//! single-use shutdown signal complete the surface.

use vstd::prelude::*;

mod engine;
mod event_loop;
mod remote;
mod task;

pub use event_loop::{join_outcome, lemma_lifecycle_single_use, EventLoop, EventLoopHandle};
pub use remote::{Remote, Strategy};
pub use task::Task;

verus! {

/// Error returned by a lifecycle handle's `wait` when the background
/// thread ended by panicking instead of finishing normally.
#[derive(Debug, Clone, Copy, PartialEq, Eq, Structural)]
pub struct ThreadPanicked;

} // verus!
