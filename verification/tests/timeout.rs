use std::sync::atomic::{AtomicBool, AtomicUsize, Ordering};
use std::sync::{Arc, Mutex};
use std::time::{Duration, Instant};

use reactor::{EventLoop, EventLoopHandle, Remote, Task};

fn nap(ms: u64) {
    futures::executor::block_on(futures_timer::Delay::new(Duration::from_millis(ms)));
}

#[test]
fn fast_work_runs_once_and_no_timeout() {
    let remote = Remote::new_sync();
    let work_calls = Arc::new(AtomicUsize::new(0));
    let timeout_calls = Arc::new(AtomicUsize::new(0));
    let wc = work_calls.clone();
    let tc = timeout_calls.clone();
    let started = Instant::now();
    remote.spawn_with_timeout(
        move || {
            let wc2 = wc.clone();
            Task::run(move || {
                wc2.fetch_add(1, Ordering::SeqCst);
            })
        },
        Duration::from_secs(5),
        move || {
            tc.fetch_add(1, Ordering::SeqCst);
        },
    );
    assert_eq!(work_calls.load(Ordering::SeqCst), 1);
    assert_eq!(timeout_calls.load(Ordering::SeqCst), 0);
    assert!(started.elapsed() < Duration::from_secs(3));
}

#[test]
fn slow_work_is_abandoned_and_timeout_fires_once() {
    let remote = Remote::new_sync();
    let factory_calls = Arc::new(AtomicUsize::new(0));
    let work_done = Arc::new(AtomicBool::new(false));
    let timeout_calls = Arc::new(AtomicUsize::new(0));
    let fc = factory_calls.clone();
    let wd = work_done.clone();
    let tc = timeout_calls.clone();
    let started = Instant::now();
    remote.spawn_with_timeout(
        move || {
            fc.fetch_add(1, Ordering::SeqCst);
            let wd2 = wd.clone();
            Task::delay(Duration::from_millis(1500)).then_run(move || {
                wd2.store(true, Ordering::SeqCst);
            })
        },
        Duration::from_millis(150),
        move || {
            tc.fetch_add(1, Ordering::SeqCst);
        },
    );
    let elapsed = started.elapsed();
    assert_eq!(factory_calls.load(Ordering::SeqCst), 1);
    assert_eq!(timeout_calls.load(Ordering::SeqCst), 1);
    assert!(!work_done.load(Ordering::SeqCst));
    assert!(elapsed >= Duration::from_millis(150));
    assert!(elapsed < Duration::from_millis(1200));
}

#[test]
fn timeout_example_records_once_near_deadline() {
    let remote = Remote::new_sync();
    let records = Arc::new(Mutex::new(Vec::new()));
    let r = records.clone();
    let started = Instant::now();
    remote.spawn_with_timeout(
        || Task::delay(Duration::from_millis(2000)),
        Duration::from_millis(100),
        move || {
            r.lock().unwrap().push("timeout");
        },
    );
    let elapsed = started.elapsed();
    assert_eq!(*records.lock().unwrap(), vec!["timeout"]);
    assert!(elapsed >= Duration::from_millis(100));
    assert!(elapsed < Duration::from_millis(1500));
}

#[test]
fn backed_timeout_work_wins() {
    let el = EventLoop::spawn();
    let remote = el.remote();
    let work_calls = Arc::new(AtomicUsize::new(0));
    let timeout_calls = Arc::new(AtomicUsize::new(0));
    let wc = work_calls.clone();
    let tc = timeout_calls.clone();
    remote.spawn_with_timeout(
        move || {
            let wc2 = wc.clone();
            Task::run(move || {
                wc2.fetch_add(1, Ordering::SeqCst);
            })
        },
        Duration::from_secs(5),
        move || {
            tc.fetch_add(1, Ordering::SeqCst);
        },
    );
    let mut waited: u64 = 0;
    while work_calls.load(Ordering::SeqCst) == 0 && waited < 5000 {
        nap(10);
        waited += 10;
    }
    assert_eq!(work_calls.load(Ordering::SeqCst), 1);
    nap(300);
    assert_eq!(timeout_calls.load(Ordering::SeqCst), 0);
    let handle: EventLoopHandle = el.into();
    handle.close();
}
