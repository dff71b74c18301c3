use std::future::IntoFuture;
use std::sync::atomic::{AtomicUsize, Ordering};
use std::sync::Arc;

use sisyphus_tasks::{ShutdownSignal, Sisyphus, TaskStatus};
use tokio::runtime::{Builder, Runtime};
use tokio::sync::{oneshot, watch};

fn runtime() -> Runtime {
    Builder::new_current_thread().build().unwrap()
}

struct Ends {
    handle: Sisyphus,
    restarts: Arc<AtomicUsize>,
    status: watch::Sender<TaskStatus>,
    signal: ShutdownSignal,
}

fn ends(rt: &Runtime) -> Ends {
    let restarts = Arc::new(AtomicUsize::new(0));
    let (status, rx) = watch::channel(TaskStatus::Starting);
    let (stop, stopped) = oneshot::channel();
    let task = rt.spawn(std::future::ready(()));
    Ends {
        handle: Sisyphus::new(restarts.clone(), rx, stop, task),
        restarts,
        status,
        signal: ShutdownSignal::new(stopped),
    }
}

#[test]
fn status_is_the_last_one_sent() {
    let rt = runtime();
    let ends = ends(&rt);
    assert_eq!(ends.handle.status().to_string(), "Starting");
    ends.status.send(TaskStatus::Running).unwrap();
    assert_eq!(ends.handle.status().to_string(), "Running");
    ends.status.send(TaskStatus::Panicked).unwrap();
    assert_eq!(ends.handle.status().to_string(), "Panicked");
}

#[test]
fn restarts_is_what_the_counter_holds() {
    let rt = runtime();
    let ends = ends(&rt);
    assert_eq!(ends.handle.restarts(), 0);
    ends.restarts.store(3, Ordering::Relaxed);
    assert_eq!(ends.handle.restarts(), 3);
}

#[test]
fn shutdown_sends_the_signal_and_returns_the_task() {
    let rt = runtime();
    let ends = ends(&rt);
    let task = ends.handle.shutdown();
    assert_eq!(rt.block_on(ends.signal.into_future()), Ok(()));
    assert!(rt.block_on(task).is_ok());
}

#[test]
fn shutdown_of_a_task_that_dropped_its_signal_is_harmless() {
    let rt = runtime();
    let ends = ends(&rt);
    drop(ends.signal);
    assert!(rt.block_on(ends.handle.shutdown()).is_ok());
}

#[test]
fn a_change_is_watched() {
    let rt = runtime();
    let mut ends = ends(&rt);
    ends.status.send(TaskStatus::Running).unwrap();
    let changed = rt.block_on(ends.handle.status_channel().changed());
    assert!(changed.is_ok());
    let status = ends.handle.watch_status(changed).unwrap();
    assert_eq!(status.to_string(), "Running");
}

#[test]
fn a_closed_channel_is_an_error() {
    let rt = runtime();
    let mut ends = ends(&rt);
    drop(ends.status);
    let changed = rt.block_on(ends.handle.status_channel().changed());
    assert!(ends.handle.watch_status(changed).is_err());
}

#[test]
fn awaiting_the_handle_awaits_the_task() {
    let rt = runtime();
    let ends = ends(&rt);
    assert!(rt.block_on(ends.handle.into_future()).is_ok());
}
