use vstd::prelude::*;

use crate::engine::clone_handle;
use crate::task::{engine_submit, run_blocking, run_detached, Task};

verus! {

/// The mathematical model of a dispatcher: which of the three dispatch
/// strategies it applies to every unit of work submitted through it.
#[derive(Clone, Copy, PartialEq, Eq, Structural, Debug)]
pub enum Strategy {
    /// Work is handed to the shared multi-threaded execution engine.
    Backed,
    /// Work runs inline on the calling thread, to completion, before the
    /// submission returns.
    Synchronous,
    /// Every unit of work gets one fresh dedicated thread.
    ThreadPerTask,
}

/// The dispatch target: a closed set of variants, immutable after
/// construction. The `Tokio` variant carries the engine's executor handle, an
/// immutable thread-safe capability token shared by every clone.
enum Mode {
    Tokio(tokio::runtime::Handle),
    Sync,
    ThreadPerFuture,
}

impl Mode {
    spec fn strategy(&self) -> Strategy {
        match self {
            Mode::Tokio(_) => Strategy::Backed,
            Mode::Sync => Strategy::Synchronous,
            Mode::ThreadPerFuture => Strategy::ThreadPerTask,
        }
    }
}

/// A cloneable dispatcher for units of asynchronous work. It wraps exactly
/// one dispatch mode, fixed for its whole life; cloning yields another handle
/// to the same dispatch target, not a duplicate of it.
pub struct Remote {
    inner: Mode,
}

impl View for Remote {
    type V = Strategy;

    closed spec fn view(&self) -> Strategy {
        self.inner.strategy()
    }
}

impl Clone for Remote {
    /// Cloning preserves the dispatch strategy; for a backed remote the
    /// carried executor handle is cloned, which yields a capability for the
    /// same engine, so both remotes submit to the same dispatch target.
    fn clone(&self) -> (r: Self)
        ensures
            r@ == self@,
    {
        Remote {
            inner: match &self.inner {
                Mode::Tokio(h) => Mode::Tokio(clone_handle(h)),
                Mode::Sync => Mode::Sync,
                Mode::ThreadPerFuture => Mode::ThreadPerFuture,
            },
        }
    }
}

impl Remote {
    /// A remote backed by an existing engine, reached through its executor
    /// handle.
    pub fn new(remote: tokio::runtime::Handle) -> (r: Self)
        ensures
            r@ is Backed,
    {
        Remote { inner: Mode::Tokio(remote) }
    }

    /// A synchronous remote: every submission runs inline on the calling
    /// thread. Used mostly for deterministic tests.
    pub fn new_sync() -> (r: Self)
        ensures
            r@ is Synchronous,
    {
        Remote { inner: Mode::Sync }
    }

    /// A remote that starts one dedicated thread per submitted unit of work,
    /// with no pooling and no backpressure. Use only for isolation tests.
    pub fn new_thread_per_future() -> (r: Self)
        ensures
            r@ is ThreadPerTask,
    {
        Remote { inner: Mode::ThreadPerFuture }
    }

    /// The dispatch strategy this remote applies.
    pub fn strategy(&self) -> (s: Strategy)
        ensures
            s == self@,
    {
        match &self.inner {
            Mode::Tokio(_) => Strategy::Backed,
            Mode::Sync => Strategy::Synchronous,
            Mode::ThreadPerFuture => Strategy::ThreadPerTask,
        }
    }

    /// A short name for the dispatch mode, for diagnostics.
    pub fn mode_name(&self) -> (s: &'static str)
        ensures
            self@ is Backed ==> s@ == "tokio"@,
            self@ is Synchronous ==> s@ == "synchronous"@,
            self@ is ThreadPerTask ==> s@ == "thread per future"@,
    {
        match &self.inner {
            Mode::Tokio(_) => "tokio",
            Mode::Sync => "synchronous",
            Mode::ThreadPerFuture => "thread per future",
        }
    }

    /// Submits a ready-made unit of work.
    ///
    /// - Backed: hands the unit to the shared engine and returns at once;
    ///   the unit runs concurrently with the caller, and nothing orders its
    ///   completion against other units.
    /// - Synchronous: blocks the calling thread until the unit has fully
    ///   resolved; every side effect of the unit has occurred on return.
    /// - Thread-per-task: starts one fresh dedicated thread that polls the
    ///   unit to completion, and returns at once.
    pub fn spawn(&self, r: Task) {
        match &self.inner {
            Mode::Tokio(remote) => engine_submit(remote, r),
            Mode::Sync => run_blocking(r),
            Mode::ThreadPerFuture => run_detached(r),
        }
    }

    /// Submits a unit of work produced lazily: the factory is invoked exactly
    /// once, at the point execution begins — on the engine for a backed
    /// remote, on the calling thread for a synchronous one, on the fresh
    /// dedicated thread otherwise — never eagerly at call time.
    pub fn spawn_fn<F: FnOnce() -> Task + Send + 'static>(&self, f: F) {
        self.spawn(Task::deferred(f));
    }

    /// Submits the unit produced by `f` raced against a timeout of
    /// `duration`, dispatched through the same three-mode logic as `spawn`.
    pub fn spawn_with_timeout<F, T>(&self, f: F, duration: core::time::Duration, on_timeout: T) where
        F: FnOnce() -> Task + Send + 'static,
        T: FnOnce() + Send + 'static,
    {
        self.spawn(timeout(f, duration, on_timeout));
    }

    /// The executor handle of the engine a backed remote submits to.
    pub(crate) fn backed_handle(&self) -> (h: tokio::runtime::Handle)
        requires
            self@ is Backed,
    {
        match &self.inner {
            Mode::Tokio(h) => clone_handle(h),
            _ => vstd::pervasive::unreached(),
        }
    }
}

/// The timeout racer: a unit of work that runs the unit produced by `f` until
/// `duration` has elapsed, at which time `on_timeout` is invoked and the
/// unit completes.
///
/// The work is started lazily — `f` is invoked exactly once, when the
/// combined unit is first polled, no matter which branch goes on to win — and
/// raced against a delay of `duration`, whose clock starts here, when the
/// race is built. Whichever branch resolves first
/// settles the outcome: if the work resolves first its result is discarded
/// and `on_timeout` is never invoked; if the delay resolves first
/// `on_timeout` is invoked exactly once and the work's result is discarded.
/// The losing branch is abandoned, not cancelled: it is simply never polled
/// again, and no stop signal is sent to it.
fn timeout<F, T>(f: F, duration: core::time::Duration, on_timeout: T) -> Task where
    F: FnOnce() -> Task + Send + 'static,
    T: FnOnce() + Send + 'static,
{
    let work = Task::deferred(f);
    let delay = Task::delay(duration).then_run(on_timeout);
    Task::race(work, delay)
}

} // verus!
