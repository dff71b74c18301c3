use std::fmt;
use std::future::IntoFuture;

use sisyphus_tasks::{count_chain, read_chain, Boulder, ErrExt, Fall, ShutdownSignal};
use tokio::runtime::{Builder, Runtime};
use tokio::sync::oneshot;
use tokio::task::JoinHandle;

#[derive(Debug, PartialEq)]
struct Stone(u8);

impl fmt::Display for Stone {
    fn fmt(&self, f: &mut fmt::Formatter<'_>) -> fmt::Result {
        f.write_str("Stone")
    }
}

impl Boulder for Stone {
    fn spawn(self, _shutdown: ShutdownSignal) -> JoinHandle<Fall<Self>> {
        tokio::spawn(std::future::ready(Fall::Shutdown { task: self }))
    }
}

fn parse_error() -> std::num::ParseIntError {
    "x".parse::<u8>().unwrap_err()
}

fn runtime() -> Runtime {
    Builder::new_current_thread().build().unwrap()
}

#[test]
fn recoverable_keeps_task_signal_and_error() {
    let (tx, rx) = oneshot::channel();
    let fall = parse_error().recoverable(Stone(7), ShutdownSignal::new(rx));
    match fall {
        Fall::Recoverable {
            task,
            err,
            shutdown,
        } => {
            assert_eq!(task, Stone(7));
            assert_eq!(count_chain(&err), 1);
            assert_eq!(
                read_chain(&err, 0).as_deref(),
                Some("invalid digit found in string")
            );
            assert!(tx.send(()).is_ok());
            assert_eq!(runtime().block_on(shutdown.into_future()), Ok(()));
        }
        other => panic!("{:?}", other),
    }
}

#[test]
fn unrecoverable_keeps_the_mark() {
    for exceptional in [true, false] {
        match parse_error().unrecoverable(Stone(1), exceptional) {
            Fall::Unrecoverable {
                exceptional: marked,
                err,
                task,
            } => {
                assert_eq!(marked, exceptional);
                assert_eq!(task, Stone(1));
                assert_eq!(count_chain(&err), 1);
                assert_eq!(
                    read_chain(&err, 0).as_deref(),
                    Some("invalid digit found in string")
                );
            }
            other => panic!("{:?}", other),
        }
    }
}

#[test]
fn logged_errors_are_exceptional_and_silent_ones_are_not() {
    assert!(matches!(
        parse_error().log_unrecoverable(Stone(2)),
        Fall::Unrecoverable {
            exceptional: true,
            task: Stone(2),
            ..
        }
    ));
    assert!(matches!(
        parse_error().silent_unrecoverable(Stone(3)),
        Fall::Unrecoverable {
            exceptional: false,
            task: Stone(3),
            ..
        }
    ));
}

#[test]
fn reports_fall_as_they_are() {
    let err = eyre::Report::msg("inner").wrap_err("outer");
    match err.log_unrecoverable(Stone(4)) {
        Fall::Unrecoverable { err, .. } => {
            assert_eq!(count_chain(&err), 2);
            assert_eq!(read_chain(&err, 0).as_deref(), Some("outer"));
            assert_eq!(read_chain(&err, 1).as_deref(), Some("inner"));
        }
        other => panic!("{:?}", other),
    }
}

#[test]
fn a_signal_can_be_awaited_and_kept() {
    let (tx, rx) = oneshot::channel();
    let mut signal = ShutdownSignal::new(rx);
    assert!(signal.receiver_mut().try_recv().is_err());
    assert!(tx.send(()).is_ok());
    assert_eq!(runtime().block_on(signal.receiver_mut()), Ok(()));
    let fall = parse_error().recoverable(Stone(5), signal);
    assert!(matches!(fall, Fall::Recoverable { task: Stone(5), .. }));
}

#[test]
fn a_signal_without_a_sender_is_an_error() {
    let (tx, rx) = oneshot::channel::<()>();
    drop(tx);
    let signal = ShutdownSignal::new(rx);
    assert!(runtime().block_on(signal.into_future()).is_err());
}

#[test]
fn boulders_restart_after_fifteen_seconds() {
    assert_eq!(Stone(0).restart_after_ms(), 15_000);
}

#[test]
fn boulders_describe_themselves_as_they_display() {
    assert_eq!(Stone(0).task_description(), "Stone");
}
