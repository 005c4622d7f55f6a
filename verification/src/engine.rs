use vstd::prelude::*;

verus! {

// The collaborator execution engine and the two channel primitives the
// lifecycle handshake is built from are outside types; the declarations below
// make the verifier aware of them. Values of these types are opaque: the
// library only carries them between the trusted calls declared further down.

#[verifier::external_type_specification]
#[verifier::external_body]
pub struct ExTokioHandle(tokio::runtime::Handle);

#[verifier::external_type_specification]
#[verifier::external_body]
pub struct ExTokioRuntime(tokio::runtime::Runtime);

#[verifier::external_type_specification]
#[verifier::external_body]
#[verifier::reject_recursive_types(T)]
pub struct ExOneshotSender<T>(futures::channel::oneshot::Sender<T>);

#[verifier::external_type_specification]
#[verifier::external_body]
#[verifier::reject_recursive_types(T)]
pub struct ExOneshotReceiver<T>(futures::channel::oneshot::Receiver<T>);

#[verifier::external_type_specification]
#[verifier::external_body]
pub struct ExOneshotCanceled(futures::channel::oneshot::Canceled);

/// Creates a fresh single-use handoff pair: the receiver resolves once the
/// sender sends, or with a cancellation error once the sender is dropped.
///
/// Relies on `futures::channel::oneshot::channel`.
#[verifier::external_body]
pub(crate) fn handoff_pair<T>() -> (futures::channel::oneshot::Sender<T>, futures::channel::oneshot::Receiver<T>) {
    futures::channel::oneshot::channel::<T>()
}

/// Sends the one value this sender will ever carry; the sender is consumed,
/// so a second send on the same channel end is impossible. If the receiving
/// end is already gone the value is silently discarded.
///
/// Relies on `futures::channel::oneshot::Sender::send`, which consumes the
/// sender, never blocks and never panics.
#[verifier::external_body]
pub(crate) fn send_unit(tx: futures::channel::oneshot::Sender<()>)
    no_unwind
{
    let _ = tx.send(());
}

/// Sends an executor handle across a handoff channel; the sender is consumed.
///
/// Relies on `futures::channel::oneshot::Sender::send`, which consumes the
/// sender and never blocks.
#[verifier::external_body]
pub(crate) fn send_handle(
    tx: futures::channel::oneshot::Sender<tokio::runtime::Handle>,
    h: tokio::runtime::Handle,
) {
    let _ = tx.send(h);
}

/// Blocks the calling thread until the background thread publishes the
/// engine's executor handle, so the caller never observes a partially
/// initialized engine.
///
/// Relies on `futures::executor::block_on` and on the oneshot receiver's
/// future. Panics — deliberately fatal — if the sending side was dropped
/// without publishing a handle, which happens only when constructing the
/// engine failed before any caller could depend on it.
#[verifier::external_body]
pub(crate) fn recv_handle(
    rx: futures::channel::oneshot::Receiver<tokio::runtime::Handle>,
) -> tokio::runtime::Handle {
    futures::executor::block_on(rx)
        .expect("The executor handle is published right after the engine is built.")
}

/// Blocks the calling thread until the background thread is finished, and
/// reports how it ended: true when the thread ran to its normal end and sent
/// its completion mark, false when it died early (it panicked), which drops
/// the sending end unsent.
///
/// Relies on `futures::executor::block_on` and on the oneshot receiver's
/// future, which resolves with an error once its sender is dropped unsent.
#[verifier::external_body]
pub(crate) fn recv_done(rx: futures::channel::oneshot::Receiver<()>) -> bool {
    match futures::executor::block_on(rx) {
        Ok(()) => true,
        Err(_) => false,
    }
}

/// Constructs the collaborator execution engine.
///
/// Relies on `tokio::runtime::Runtime::new`: a multi-threaded runtime with
/// its own worker pool. Failure to construct it is unrecoverable by design
/// and panics — it can occur only at startup, before any caller depends on
/// partial state.
#[verifier::external_body]
pub(crate) fn new_engine() -> tokio::runtime::Runtime {
    tokio::runtime::Runtime::new().expect("Creating an event loop should not fail.")
}

/// Obtains a cloneable capability token for submitting work to the engine.
///
/// Relies on `tokio::runtime::Runtime::handle` and `Handle::clone`: the
/// returned handle submits to this same runtime.
#[verifier::external_body]
pub(crate) fn engine_handle(engine: &tokio::runtime::Runtime) -> tokio::runtime::Handle {
    engine.handle().clone()
}

/// Clones an executor handle; the clone is a capability for the same
/// underlying runtime, shared rather than duplicated.
///
/// Relies on `tokio::runtime::Handle::clone`.
#[verifier::external_body]
pub(crate) fn clone_handle(h: &tokio::runtime::Handle) -> tokio::runtime::Handle {
    h.clone()
}

/// Parks the engine on the calling thread until the shutdown signal arrives;
/// the receiver resolves on a send as well as when the sending side is
/// dropped, so an abandoned sender releases the engine too.
///
/// Relies on `tokio::runtime::Runtime::block_on` and on the oneshot
/// receiver's future.
#[verifier::external_body]
pub(crate) fn engine_park_until(
    engine: &tokio::runtime::Runtime,
    stop: futures::channel::oneshot::Receiver<()>,
) {
    let _ = engine.block_on(stop);
}

/// How many units of work the engine still holds alive, finished ones
/// excluded. The count is a snapshot: work submitted concurrently can change
/// it at any moment, so nothing more than "what the engine reported just now"
/// is promised of the result.
///
/// Relies on `tokio::runtime::Runtime::metrics` and
/// `RuntimeMetrics::num_alive_tasks`.
#[verifier::external_body]
pub(crate) fn engine_active_tasks(engine: &tokio::runtime::Runtime) -> usize {
    engine.metrics().num_alive_tasks()
}

/// Shuts the engine down, taking ownership of it: its worker threads are
/// stopped before this returns, and any unit of work still pending at that
/// point is dropped.
///
/// Relies on dropping `tokio::runtime::Runtime`, which shuts it down.
#[verifier::external_body]
pub(crate) fn engine_shutdown(engine: tokio::runtime::Runtime) {
    drop(engine);
}

/// Puts the calling thread to sleep for about a millisecond, for polite
/// polling while the engine drains. The engine itself drives the sleep, so
/// this is safe on the engine's background thread, which lives inside
/// another executor's scope where a plain blocking executor would refuse to
/// run.
///
/// Relies on `tokio::runtime::Runtime::block_on` and `futures_timer::Delay`,
/// a timer that needs no particular runtime context.
#[verifier::external_body]
pub(crate) fn pause_briefly(engine: &tokio::runtime::Runtime) {
    engine.block_on(futures_timer::Delay::new(core::time::Duration::from_millis(1)));
}

} // verus!
