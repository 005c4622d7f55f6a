use std::sync::atomic::{AtomicBool, AtomicUsize, Ordering};
use std::sync::Arc;
use std::time::Duration;

use reactor::{join_outcome, EventLoop, EventLoopHandle, Remote, Strategy, Task};

fn nap(ms: u64) {
    futures::executor::block_on(futures_timer::Delay::new(Duration::from_millis(ms)));
}

#[test]
fn spawn_convert_close_sends_single_signal() {
    let el = EventLoop::spawn();
    let handle: EventLoopHandle = el.into();
    handle.close();
    nap(100);
    let el2 = EventLoop::spawn();
    let counter = Arc::new(AtomicUsize::new(0));
    let c = counter.clone();
    el2.remote().spawn(Task::run(move || {
        c.fetch_add(1, Ordering::SeqCst);
    }));
    let mut waited: u64 = 0;
    while counter.load(Ordering::SeqCst) == 0 && waited < 5000 {
        nap(10);
        waited += 10;
    }
    assert_eq!(counter.load(Ordering::SeqCst), 1);
    let handle2: EventLoopHandle = el2.into();
    handle2.close();
}

#[test]
fn dropping_event_loop_requests_shutdown() {
    let el = EventLoop::spawn();
    drop(el);
    nap(100);
}

#[test]
fn first_submit_never_races_engine_readiness() {
    for _ in 0..200 {
        let el = EventLoop::spawn();
        let remote = el.remote();
        let flag = Arc::new(AtomicBool::new(false));
        let f = flag.clone();
        remote.spawn(Task::run(move || {
            f.store(true, Ordering::SeqCst);
        }));
        let mut waited: u64 = 0;
        while !flag.load(Ordering::SeqCst) && waited < 2000 {
            nap(1);
            waited += 1;
        }
        assert!(flag.load(Ordering::SeqCst));
        let handle: EventLoopHandle = el.into();
        handle.close();
    }
}

#[test]
fn cloned_remote_reaches_same_engine() {
    let el = EventLoop::spawn();
    let first = el.remote();
    let second = first.clone();
    assert_eq!(first.strategy(), Strategy::Backed);
    assert_eq!(second.strategy(), Strategy::Backed);
    assert_eq!(first.mode_name(), "tokio");
    let counter = Arc::new(AtomicUsize::new(0));
    let c = counter.clone();
    second.spawn(Task::run(move || {
        c.fetch_add(1, Ordering::SeqCst);
    }));
    let mut waited: u64 = 0;
    while counter.load(Ordering::SeqCst) == 0 && waited < 5000 {
        nap(10);
        waited += 10;
    }
    assert_eq!(counter.load(Ordering::SeqCst), 1);
    let handle: EventLoopHandle = el.into();
    handle.close();
}

#[test]
fn raw_executor_submits_to_same_engine() {
    let el = EventLoop::spawn();
    let executor = el.raw_executor();
    let adopted = Remote::new(executor);
    assert_eq!(adopted.strategy(), Strategy::Backed);
    let counter = Arc::new(AtomicUsize::new(0));
    let c = counter.clone();
    adopted.spawn(Task::run(move || {
        c.fetch_add(1, Ordering::SeqCst);
    }));
    let mut waited: u64 = 0;
    while counter.load(Ordering::SeqCst) == 0 && waited < 5000 {
        nap(10);
        waited += 10;
    }
    assert_eq!(counter.load(Ordering::SeqCst), 1);
    let handle: EventLoopHandle = el.into();
    handle.close();
}

#[test]
fn join_outcome_maps_both_ends() {
    assert!(join_outcome(true).is_ok());
    assert!(join_outcome(false).is_err());
}

#[test]
fn close_drains_pending_work() {
    let el = EventLoop::spawn();
    let remote = el.remote();
    let flag = Arc::new(AtomicBool::new(false));
    let f = flag.clone();
    remote.spawn(Task::delay(Duration::from_millis(400)).then_run(move || {
        f.store(true, Ordering::SeqCst);
    }));
    let handle: EventLoopHandle = el.into();
    handle.close();
    let mut waited: u64 = 0;
    while !flag.load(Ordering::SeqCst) && waited < 5000 {
        nap(10);
        waited += 10;
    }
    assert!(flag.load(Ordering::SeqCst));
}
