use vstd::prelude::*;

use crate::engine::{
    engine_active_tasks, engine_handle, engine_park_until, engine_shutdown, handoff_pair,
    new_engine, pause_briefly, recv_done, recv_handle, send_handle, send_unit,
};
use crate::remote::Remote;
use crate::task::Task;
use crate::ThreadPanicked;

verus! {

/// A handle to a running event loop: it owns the single-use shutdown signal
/// and the token for observing the background thread's end.
///
/// The shutdown signal is sent at most once. That discipline is carried by
/// ownership: the signal sits in a slot that every sending path — an explicit
/// `close` or the drop of the handle — takes out of the handle before
/// sending, and the sender itself is consumed by the send. Dropping the
/// handle after the slot was emptied sends nothing.
pub struct EventLoopHandle {
    close: Option<futures::channel::oneshot::Sender<()>>,
    done: Option<futures::channel::oneshot::Receiver<()>>,
}

impl EventLoopHandle {
    /// The shutdown signal has not been taken yet.
    pub closed spec fn armed(&self) -> bool {
        self.close is Some
    }

    /// The token for observing the background thread's end is still held.
    pub closed spec fn joinable(&self) -> bool {
        self.done is Some
    }

    /// Finishes the event loop: takes the shutdown signal out of its slot and
    /// sends it, without waiting for the background thread. The handle is
    /// consumed, so no later operation on it can send the signal again; the
    /// drop that runs at the end of this call finds the slot empty and sends
    /// nothing. The signal is present whenever a handle is still owned —
    /// only `close` and the final drop take it — which is what the
    /// precondition records.
    pub fn close(self)
        requires
            self.armed(),
    {
        let mut this = self;
        let tx = this.close.take();
        send_unit(tx.unwrap());
    }

    /// Blocks the calling thread until the background thread is finished,
    /// and reports how it ended: the thread's panic, if any, is returned as
    /// an error rather than swallowed. The join token is present whenever a
    /// handle is still owned — only `wait` takes it, and `wait` consumes the
    /// handle — which is what the precondition records.
    pub fn wait(self) -> Result<(), ThreadPanicked>
        requires
            self.joinable(),
    {
        let mut this = self;
        let rx = this.done.take();
        let clean = recv_done(rx.unwrap());
        join_outcome(clean)
    }
}

impl Drop for EventLoopHandle {
    /// Dropping the handle requests shutdown, fire-and-forget: if the
    /// shutdown signal is still in its slot it is taken and sent, otherwise
    /// nothing happens; the background thread is not joined. Idempotent by
    /// ownership: taking the slot empties it, and the sender is consumed.
    ///
    /// Relies on `Option::take` and `futures::channel::oneshot::Sender::send`,
    /// which consumes the sender, never blocks and never panics.
    #[verifier::external_body]
    fn drop(&mut self)
        opens_invariants none
        no_unwind
    {
        if let Some(t) = self.close.take() {
            let _ = t.send(());
        }
    }
}

/// Maps the background thread's reported end to the caller-facing result: a
/// clean end is `Ok`, a panicked thread is reported as `ThreadPanicked`.
pub fn join_outcome(clean: bool) -> (r: Result<(), ThreadPanicked>)
    ensures
        r is Ok <==> clean,
{
    if clean {
        Ok(())
    } else {
        Err(ThreadPanicked)
    }
}

/// An event loop for units of asynchronous work. The execution engine it is
/// backed by runs on a separate background thread; the event loop bundles a
/// remote that submits to that engine and the lifecycle handle that shuts it
/// down.
pub struct EventLoop {
    remote: Remote,
    handle: EventLoopHandle,
}

impl EventLoop {
    /// A freshly spawned event loop is backed by the engine and holds both
    /// lifecycle tokens.
    pub closed spec fn wf(&self) -> bool {
        &&& self.remote@ is Backed
        &&& self.handle.armed()
        &&& self.handle.joinable()
    }

    /// The lifecycle handle bundled in this event loop.
    pub closed spec fn lifecycle(self) -> EventLoopHandle {
        self.handle
    }

    /// Spawns a new background thread carrying an event loop.
    ///
    /// The background thread constructs the execution engine, publishes the
    /// engine's executor handle back over a single-use rendezvous channel,
    /// and then parks until the shutdown signal arrives. The calling thread
    /// blocks on the rendezvous until the handle is published, so the
    /// returned event loop's remote is immediately usable: no caller ever
    /// observes a partially initialized engine.
    pub fn spawn() -> (el: EventLoop)
        ensures
            el.wf(),
            el.lifecycle().armed(),
            el.lifecycle().joinable(),
    {
        let pair = handoff_pair::<()>();
        let stop_tx = pair.0;
        let stop_rx = pair.1;
        let donep = handoff_pair::<()>();
        let done_tx = donep.0;
        let done_rx = donep.1;
        let handp = handoff_pair::<tokio::runtime::Handle>();
        let hand_tx = handp.0;
        let hand_rx = handp.1;
        crate::task::run_detached(Task::run(move || engine_thread_main(hand_tx, stop_rx, done_tx)));
        let executor = recv_handle(hand_rx);
        EventLoop {
            remote: Remote::new(executor),
            handle: EventLoopHandle { close: Some(stop_tx), done: Some(done_rx) },
        }
    }

    /// This event loop's raw executor handle, a capability for submitting
    /// work straight to the engine. An event loop is only ever constructed
    /// backed by an engine, so the handle is always there to be cloned.
    pub fn raw_executor(&self) -> tokio::runtime::Handle
        requires
            self.wf(),
    {
        self.remote.backed_handle()
    }

    /// A clone of this event loop's remote: another handle to the same
    /// engine, callable any number of times, from any thread.
    pub fn remote(&self) -> (r: Remote)
        requires
            self.wf(),
        ensures
            r@ is Backed,
    {
        self.remote.clone()
    }
}

/// A live event loop always admits both lifecycle operations: its handle
/// still holds the shutdown signal, so `close` may be invoked on it, and it
/// still holds the join token, so `wait` may be invoked instead. Together
/// with `close` and `wait` consuming the handle, this is the single-use
/// discipline: every handle on which either operation can start holds the
/// signal, and no handle survives the operation to offer it a second time.
pub proof fn lemma_lifecycle_single_use(el: EventLoop)
    requires
        el.wf(),
    ensures
        el.lifecycle().armed(),
        el.lifecycle().joinable(),
{
}

/// One round of drain polling sleeps about a millisecond; this cap — about a
/// day of rounds — bounds the wait for stragglers, so the background thread
/// itself always terminates.
const DRAIN_ROUND_CAP: u64 = 86400000;

/// What the background thread does, from birth to exit: construct the
/// engine — a failure there is unrecoverable and deliberately fatal, since no
/// caller is yet positioned to handle it — publish the engine's executor
/// handle to the waiting spawner, park until the shutdown signal arrives,
/// wait for the engine to drain the work it still holds (polling once a
/// millisecond, with a cap that keeps this thread itself terminating), shut
/// it down, and finally mark the thread's clean end.
fn engine_thread_main(
    hand_tx: futures::channel::oneshot::Sender<tokio::runtime::Handle>,
    stop_rx: futures::channel::oneshot::Receiver<()>,
    done_tx: futures::channel::oneshot::Sender<()>,
) {
    let engine = new_engine();
    let executor = engine_handle(&engine);
    send_handle(hand_tx, executor);
    engine_park_until(&engine, stop_rx);
    let mut rounds: u64 = 0;
    while engine_active_tasks(&engine) > 0 && rounds < DRAIN_ROUND_CAP
        invariant
            rounds <= DRAIN_ROUND_CAP,
        decreases DRAIN_ROUND_CAP - rounds,
    {
        rounds = rounds + 1;
        pause_briefly(&engine);
    }
    engine_shutdown(engine);
    send_unit(done_tx);
}

impl From<EventLoop> for EventLoopHandle {
    /// Extracts only the lifecycle handle from an event loop, discarding the
    /// remote — for a caller that wants to hold shutdown control but not
    /// submission rights.
    fn from(el: EventLoop) -> (h: EventLoopHandle) {
        el.handle
    }
}

impl vstd::std_specs::convert::FromSpecImpl<EventLoop> for EventLoopHandle {
    open spec fn obeys_from_spec() -> bool {
        true
    }

    open spec fn from_spec(el: EventLoop) -> EventLoopHandle {
        el.lifecycle()
    }
}

} // verus!
