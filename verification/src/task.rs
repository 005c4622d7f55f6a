use vstd::prelude::*;

verus! {

/// One unit of asynchronous work: a computation that eventually completes and
/// yields nothing. Its only observable behaviour is the side effects of the
/// closures it was built from; submission is fire-and-forget, so a caller
/// never learns whether the unit succeeded.
///
/// The payload is a boxed future, a type the verifier cannot look into; the
/// struct is therefore opaque, and everything the library states about a unit
/// of work is stated at the points where one is built or dispatched.
#[verifier::external_body]
pub struct Task {
    inner: futures::future::BoxFuture<'static, ()>,
}

impl Task {
    /// A unit of work that completes at once and does nothing.
    ///
    /// Relies on `futures::future::ready`: a future that is immediately ready.
    #[verifier::external_body]
    pub fn noop() -> Task {
        Task { inner: Box::pin(futures::future::ready(())) }
    }

    /// A unit of work that invokes `f` when it is first polled, exactly once,
    /// and then completes. `f` does not run before the unit is scheduled.
    ///
    /// Relies on `futures::future::lazy`: the closure runs on the first poll,
    /// exactly once; if the future is dropped unpolled, the closure never runs.
    #[verifier::external_body]
    pub fn run<F: FnOnce() + Send + 'static>(f: F) -> Task {
        Task { inner: Box::pin(futures::future::lazy(move |_| f())) }
    }

    /// A unit of work that completes once `duration` has elapsed, counted from
    /// the moment it is first polled.
    ///
    /// Relies on `futures_timer::Delay`: a timer future that needs no
    /// particular runtime, so it resolves under any of the dispatch modes.
    #[verifier::external_body]
    pub fn delay(duration: core::time::Duration) -> Task {
        Task { inner: Box::pin(futures_timer::Delay::new(duration)) }
    }

    /// A unit of work that behaves as `self`, then invokes `f` once `self`
    /// has completed.
    ///
    /// Relies on `futures::future::FutureExt::map`: the closure runs exactly
    /// once, when the underlying future completes.
    #[verifier::external_body]
    pub fn then_run<F: FnOnce() + Send + 'static>(self, f: F) -> Task {
        Task { inner: Box::pin(futures::future::FutureExt::map(self.inner, move |_| f())) }
    }

    /// A unit of work that invokes the factory `f` when it is first polled —
    /// exactly once, and not before the unit is scheduled — and then behaves
    /// as the unit the factory produced.
    ///
    /// Relies on `futures::future::lazy` and `futures::future::FutureExt::flatten`:
    /// the factory runs on the first poll, and the produced future is polled
    /// to completion in its place.
    #[verifier::external_body]
    pub(crate) fn deferred<F: FnOnce() -> Task + Send + 'static>(f: F) -> Task {
        Task {
            inner: Box::pin(futures::future::FutureExt::flatten(
                futures::future::FutureExt::map(
                    futures::future::lazy(move |_| f()),
                    |t: Task| t.inner,
                ),
            )),
        }
    }

    /// A unit of work that completes as soon as the first of `a` and `b`
    /// completes. `a` is polled first. The losing branch is discarded, never
    /// polled again and never awaited; it is not sent any kind of stop signal.
    ///
    /// Relies on `futures::future::select`: resolves with the first of the two
    /// futures to complete; the map closure discards the leftover branch.
    #[verifier::external_body]
    pub(crate) fn race(a: Task, b: Task) -> Task {
        Task {
            inner: Box::pin(futures::future::FutureExt::map(
                futures::future::select(a.inner, b.inner),
                |_| (),
            )),
        }
    }
}

/// Runs `t` on the calling thread and returns only after `t` has fully
/// resolved, so every side effect of `t` has occurred when this returns.
///
/// Relies on `futures::executor::block_on`: blocks the current thread until
/// the future completes.
#[verifier::external_body]
pub(crate) fn run_blocking(t: Task) {
    futures::executor::block_on(t.inner);
}

/// Starts one fresh dedicated thread that polls `t` to completion, and
/// returns at once, without waiting for `t`.
///
/// Relies on `futures::executor::ThreadPool` with one worker: the pool handle
/// is dropped here, but the task itself holds a handle to the pool, so the
/// thread stays alive exactly until `t` completes and then exits. Panics only
/// if the operating system refuses to start a thread.
#[verifier::external_body]
pub(crate) fn run_detached(t: Task) {
    let pool = futures::executor::ThreadPool::builder()
        .pool_size(1)
        .create()
        .expect("Starting a dedicated worker thread should not fail.");
    pool.spawn_ok(t.inner);
}

/// Hands `t` to the shared execution engine for eventual execution and
/// returns at once; `t` runs concurrently with the caller. The join handle is
/// dropped, so the unit runs detached (fire and forget).
///
/// Relies on `tokio::runtime::Handle::spawn`: the future is queued on the
/// runtime the handle belongs to and runs on its worker threads.
#[verifier::external_body]
pub(crate) fn engine_submit(h: &tokio::runtime::Handle, t: Task) {
    let _ = h.spawn(t.inner);
}

} // verus!
