use std::fmt;
use std::future;
use std::sync::Arc;

use sisyphus_tasks::{
    count_chain, observe, read_chain, Action, Boulder, Ending, Event, Fall, Grounds, Level, Note,
    Observation, Phase, Scope, ShutdownSignal, Supervisor, TaskStatus, Turn,
};
use tokio::runtime::{Builder, Runtime};
use tokio::sync::oneshot;
use tokio::task::{JoinError, JoinHandle};

fn runtime() -> Runtime {
    Builder::new_current_thread().build().unwrap()
}

fn signal() -> ShutdownSignal {
    let (_tx, rx) = oneshot::channel();
    ShutdownSignal::new(rx)
}

/// Spawns the task that the supervisor asks to spawn, and lets it end.
fn spawn_and_join<T>(rt: &Runtime, task: T, shutdown: ShutdownSignal) -> Result<Fall<T>, JoinError>
where
    T: Boulder + Send + Sync + 'static,
{
    let _context = rt.enter();
    rt.block_on(task.spawn(shutdown))
}

fn step<T: Boulder>(turn_supervisor: Supervisor<T>, event: Event<T>) -> Turn<T> {
    assert!(turn_supervisor.expects(&event));
    turn_supervisor.step(event)
}

/// Hands the grounds of a stop back.
fn explain<T: Boulder>(turn: Turn<T>) -> Turn<T> {
    match turn.action {
        Action::Explain(grounds) => step(turn.supervisor, Event::Explained(grounds)),
        _ => panic!("the stop is explained"),
    }
}

fn texts(notes: &[Note]) -> Vec<&str> {
    notes.iter().map(|note| note.text.as_str()).collect()
}

/// Pushes a task up to the point where it has ended its first run.
fn first_fall<T>(rt: &Runtime, task: T, watched: bool) -> (Supervisor<T>, Result<Fall<T>, JoinError>)
where
    T: Boulder + Send + Sync + 'static,
{
    let (status, turn) = Supervisor::start(task, signal());
    assert_eq!(status.to_string(), "Starting");
    assert!(turn.notes.is_empty());
    let ended = match turn.action {
        Action::Spawn { task, shutdown } => spawn_and_join(rt, task, shutdown),
        _ => panic!("a task is spawned first"),
    };
    let turn = step(turn.supervisor, Event::Spawned);
    match &turn.action {
        Action::Publish(status) => assert_eq!(status.to_string(), "Running"),
        _ => panic!("a spawned task is announced"),
    }
    let turn = step(turn.supervisor, Event::Published { watched });
    assert!(turn.notes.is_empty());
    assert!(matches!(turn.action, Action::Join));
    (turn.supervisor, ended)
}

struct RecoverableTask;

impl fmt::Display for RecoverableTask {
    fn fmt(&self, f: &mut fmt::Formatter<'_>) -> fmt::Result {
        f.write_str("RecoverableTask")
    }
}

impl Boulder for RecoverableTask {
    fn spawn(self, shutdown_tx: ShutdownSignal) -> JoinHandle<Fall<Self>> {
        tokio::spawn(future::ready(Fall::Recoverable {
            err: eyre::Report::msg("I only took an arrow to the knee"),
            task: self,
            shutdown: shutdown_tx,
        }))
    }
}

#[test]
fn test_recovery() {
    let rt = runtime();
    let (supervisor, ended) = first_fall(&rt, RecoverableTask, true);

    let turn = step(supervisor, Event::Joined(ended));
    assert_eq!(texts(&turn.notes), vec!["Error 1/1"]);
    assert_eq!(turn.notes[0].error, Some(0));
    assert_eq!(
        turn.error_message(&turn.notes[0]).as_deref(),
        Some("I only took an arrow to the knee")
    );
    assert_eq!(turn.notes[0].level, Level::Debug);
    match &turn.action {
        Action::Publish(status) => assert_eq!(
            status.to_string(),
            "Restarting:\nI only took an arrow to the knee"
        ),
        _ => panic!("a recovery is published"),
    }

    let turn = step(turn.supervisor, Event::Published { watched: true });
    assert_eq!(texts(&turn.notes), vec!["Task Recovering..."]);
    let task = match turn.action {
        Action::Recover(task) => task,
        _ => panic!("a fallen task recovers"),
    };

    let turn = step(turn.supervisor, Event::Recovered(Ok(task)));
    assert_eq!(texts(&turn.notes), vec!["Task Restarting ↺"]);
    assert!(matches!(turn.action, Action::Sleep));
    assert_eq!(turn.supervisor.pause_ms(), Some(15_000));
    assert_eq!(turn.supervisor.restarts, 0);

    let turn = step(turn.supervisor, Event::Slept);
    assert!(turn.notes.is_empty());
    assert_eq!(turn.supervisor.restarts, 1);
    let ended = match turn.action {
        Action::Respawn {
            task,
            shutdown,
            restarts: 1,
        } => spawn_and_join(&rt, task, shutdown),
        _ => panic!("a recovered task restarts"),
    };

    // The owner has shut the task down by now, and watches it no longer.
    let turn = step(turn.supervisor, Event::Spawned);
    assert!(matches!(turn.action, Action::Publish(TaskStatus::Running)));
    let turn = step(turn.supervisor, Event::Published { watched: false });
    assert!(matches!(turn.action, Action::Join));
    let turn = step(turn.supervisor, Event::Joined(ended));
    assert!(matches!(
        turn.action,
        Action::Publish(TaskStatus::Recovering(_))
    ));
    let turn = step(turn.supervisor, Event::Published { watched: false });
    assert!(matches!(turn.action, Action::End(Ending::Done)));
}

struct UnrecoverableTask;

impl fmt::Display for UnrecoverableTask {
    fn fmt(&self, f: &mut fmt::Formatter<'_>) -> fmt::Result {
        f.write_str("UnrecoverableTask")
    }
}

impl Boulder for UnrecoverableTask {
    fn spawn(self, _shutdown: ShutdownSignal) -> JoinHandle<Fall<Self>> {
        tokio::spawn(future::ready(Fall::Unrecoverable {
            err: eyre::Report::msg("Tis only a scratch"),
            exceptional: true,
            task: self,
        }))
    }
}

#[test]
fn test_unrecoverable() {
    let rt = runtime();
    let (supervisor, ended) = first_fall(&rt, UnrecoverableTask, true);

    let turn = step(supervisor, Event::Joined(ended));
    assert_eq!(texts(&turn.notes), vec!["Error 1/1", "Task Cleaning up.."]);
    assert_eq!(turn.notes[0].exceptional, Some(true));
    assert_eq!(
        turn.error_message(&turn.notes[0]).as_deref(),
        Some("Tis only a scratch")
    );
    assert_eq!(turn.error_message(&turn.notes[1]), None);
    assert_eq!(turn.notes[0].level, Level::Error);
    assert!(matches!(turn.action, Action::CleanUp(UnrecoverableTask)));

    let turn = step(turn.supervisor, Event::CleanedUp(Ok(())));
    match &turn.action {
        Action::Publish(status) => assert_eq!(
            status.to_string(),
            "Stopped:\nexceptional\nTis only a scratch"
        ),
        _ => panic!("a stop is published"),
    }

    let turn = step(turn.supervisor, Event::Published { watched: true });
    assert_eq!(texts(&turn.notes), vec!["Task Shutting down Ⓧ"]);
    assert!(matches!(turn.action, Action::End(Ending::Done)));
    assert!(!turn.supervisor.expects(&Event::Spawned));
}

struct PanicTask;

impl fmt::Display for PanicTask {
    fn fmt(&self, f: &mut fmt::Formatter<'_>) -> fmt::Result {
        f.write_str("PanicTask")
    }
}

impl Boulder for PanicTask {
    fn spawn(self, _shutdown: ShutdownSignal) -> JoinHandle<Fall<Self>> {
        tokio::spawn(future::poll_fn(|_| panic!("intentional panic :)")))
    }
}

#[test]
fn test_panic() {
    let rt = runtime();
    assert_eq!(PanicTask.task_description(), "PanicTask");
    let (supervisor, ended) = first_fall(&rt, PanicTask, false);

    let turn = step(supervisor, Event::Joined(ended));
    assert!(turn.notes.is_empty());
    assert!(matches!(turn.action, Action::Publish(TaskStatus::Panicked)));

    // Whoever awaits the task watches its status no longer.
    let turn = step(turn.supervisor, Event::Published { watched: false });
    assert_eq!(texts(&turn.notes), vec!["Internal task panicked"]);
    assert_eq!(turn.notes[0].level, Level::Error);
    assert_eq!(turn.notes[0].scope, Scope::Task);
    match turn.action {
        Action::End(Ending::Unwind(error)) => assert!(error.is_panic()),
        _ => panic!("the panic is passed on"),
    }
}

struct ShutdownTask {}

impl fmt::Display for ShutdownTask {
    fn fmt(&self, f: &mut fmt::Formatter<'_>) -> fmt::Result {
        f.write_str("ShutdownTask")
    }
}

impl Boulder for ShutdownTask {
    fn restart_after_ms(&self) -> u64 {
        250
    }

    fn spawn(self, _shutdown: ShutdownSignal) -> JoinHandle<Fall<Self>> {
        tokio::spawn(future::ready(Fall::Shutdown { task: self }))
    }
}

#[test]
fn test_shutdown() {
    let rt = runtime();
    let (supervisor, ended) = first_fall(&rt, ShutdownTask {}, true);

    let turn = step(supervisor, Event::Joined(ended));
    assert!(turn.notes.is_empty());
    assert!(matches!(turn.action, Action::Abort));

    let turn = step(turn.supervisor, Event::Aborted);
    assert_eq!(texts(&turn.notes), vec!["Handle aborted"]);
    assert_eq!(turn.notes[0].level, Level::Trace);
    let turn = explain(turn);
    assert!(turn.notes.is_empty());
    match &turn.action {
        Action::Publish(status) => assert_eq!(
            status.to_string(),
            TaskStatus::Stopped {
                exceptional: false,
                err: Arc::new(eyre::Report::msg("Shutdown"))
            }
            .to_string()
        ),
        _ => panic!("a shutdown is published"),
    }

    let turn = step(turn.supervisor, Event::Published { watched: true });
    assert!(turn.notes.is_empty());
    assert!(matches!(turn.action, Action::CleanUp(ShutdownTask {})));

    let turn = step(
        turn.supervisor,
        Event::CleanedUp(Err(eyre::Report::msg("of no matter"))),
    );
    assert_eq!(texts(&turn.notes), vec!["Cleanup ran"]);
    assert!(matches!(turn.action, Action::End(Ending::Done)));
}

#[test]
fn a_shutdown_that_nobody_watches_is_graceful() {
    let rt = runtime();
    let (supervisor, ended) = first_fall(&rt, ShutdownTask {}, false);
    let turn = step(supervisor, Event::Joined(ended));
    let turn = step(turn.supervisor, Event::Aborted);
    let turn = explain(turn);
    let turn = step(turn.supervisor, Event::Published { watched: false });
    assert!(matches!(turn.action, Action::CleanUp(ShutdownTask {})));
    let turn = step(turn.supervisor, Event::CleanedUp(Ok(())));
    assert!(matches!(turn.action, Action::End(Ending::Done)));
    assert!(matches!(turn.supervisor.phase, Phase::Ended));
}

fn pushing() -> Supervisor<ShutdownTask> {
    Supervisor {
        phase: Phase::Pushing,
        restarts: 0,
    }
}

#[test]
fn a_cancelled_task_is_stopped() {
    let rt = runtime();
    let spawned: JoinHandle<Fall<ShutdownTask>> = rt.spawn(future::pending());
    spawned.abort();
    let ended = rt.block_on(spawned);
    let message = match &ended {
        Err(error) => format!("{}", error),
        Ok(_) => panic!("the task is cancelled"),
    };
    let turn = step(pushing(), Event::Joined(ended));
    assert_eq!(texts(&turn.notes), vec!["Internal task cancelled"]);
    assert_eq!(turn.notes[0].level, Level::Trace);
    assert!(!turn
        .supervisor
        .expects(&Event::Explained(Grounds::Shutdown)));
    let turn = explain(turn);
    assert!(turn.notes.is_empty());
    match &turn.action {
        Action::Publish(status) => {
            assert_eq!(status.to_string(), format!("Stopped:\n{}", message));
            assert!(matches!(
                status,
                TaskStatus::Stopped {
                    exceptional: false,
                    ..
                }
            ));
        }
        _ => panic!("a cancellation is published"),
    }
    let turn = step(turn.supervisor, Event::Published { watched: true });
    assert!(turn.notes.is_empty());
    assert!(matches!(turn.action, Action::End(Ending::Done)));
}

#[test]
fn an_unseen_recovery_ends_the_loop() {
    let turn = step(
        pushing(),
        Event::Joined(Ok(Fall::Recoverable {
            task: ShutdownTask {},
            err: eyre::Report::msg("stumbled"),
            shutdown: signal(),
        })),
    );
    let turn = step(turn.supervisor, Event::Published { watched: false });
    assert!(turn.notes.is_empty());
    assert!(matches!(turn.action, Action::End(Ending::Done)));
    assert!(matches!(turn.supervisor.phase, Phase::Ended));
}

#[test]
fn a_failed_recovery_is_published_and_ends_the_loop_with_its_error() {
    let supervisor: Supervisor<ShutdownTask> = Supervisor {
        phase: Phase::Recovering { shutdown: signal() },
        restarts: 4,
    };
    let turn = step(
        supervisor,
        Event::Recovered(Err(eyre::Report::msg("beyond repair"))),
    );
    assert!(turn.notes.is_empty());
    assert!(matches!(turn.action, Action::Publish(TaskStatus::Panicked)));
    let turn = step(turn.supervisor, Event::Published { watched: false });
    match turn.action {
        Action::End(Ending::RecoveryFailed(err)) => assert_eq!(format!("{}", err), "beyond repair"),
        _ => panic!("a failed recovery ends the loop"),
    }
    assert_eq!(turn.supervisor.restarts, 4);
}

#[test]
fn a_task_says_how_long_to_pause() {
    let supervisor: Supervisor<ShutdownTask> = Supervisor {
        phase: Phase::Recovering { shutdown: signal() },
        restarts: 0,
    };
    let turn = step(supervisor, Event::Recovered(Ok(ShutdownTask {})));
    assert!(matches!(turn.action, Action::Sleep));
    assert_eq!(turn.supervisor.pause_ms(), Some(250));
    let turn = step(turn.supervisor, Event::Slept);
    assert_eq!(turn.supervisor.pause_ms(), None);
}

#[test]
fn the_signal_survives_a_restart() {
    let rt = runtime();
    let (tx, rx) = oneshot::channel();
    let turn = step(
        pushing(),
        Event::Joined(Ok(Fall::Recoverable {
            task: ShutdownTask {},
            err: eyre::Report::msg("stumbled"),
            shutdown: ShutdownSignal::new(rx),
        })),
    );
    let turn = step(turn.supervisor, Event::Published { watched: true });
    let turn = step(turn.supervisor, Event::Recovered(Ok(ShutdownTask {})));
    let turn = step(turn.supervisor, Event::Slept);
    match turn.action {
        Action::Respawn {
            shutdown, restarts, ..
        } => {
            assert_eq!(restarts, 1);
            assert!(tx.send(()).is_ok());
            assert_eq!(
                rt.block_on(future::IntoFuture::into_future(shutdown)),
                Ok(())
            );
        }
        _ => panic!("the task restarts"),
    }
}

#[test]
fn restarts_wrap_around() {
    let supervisor = Supervisor {
        phase: Phase::Resting {
            task: ShutdownTask {},
            shutdown: signal(),
        },
        restarts: usize::MAX,
    };
    let turn = step(supervisor, Event::Slept);
    assert_eq!(turn.supervisor.restarts, 0);
    assert!(matches!(turn.action, Action::Respawn { restarts: 0, .. }));
}

#[test]
fn an_unexceptional_fall_is_noted_quietly() {
    let err = eyre::Report::msg("upstream closed").wrap_err("nothing to read");
    let turn = step(
        pushing(),
        Event::Joined(Ok(Fall::Unrecoverable {
            exceptional: false,
            err,
            task: ShutdownTask {},
        })),
    );
    assert_eq!(
        texts(&turn.notes),
        vec!["Error 1/2", "Error 2/2", "Task Cleaning up.."]
    );
    assert_eq!(turn.notes[0].level, Level::Trace);
    assert_eq!(
        turn.error_message(&turn.notes[0]).as_deref(),
        Some("nothing to read")
    );
    assert_eq!(
        turn.error_message(&turn.notes[1]).as_deref(),
        Some("upstream closed")
    );
    assert_eq!(turn.notes[2].level, Level::Warn);
}

#[test]
fn events_out_of_turn_are_not_expected() {
    let supervisor = pushing();
    assert!(!supervisor.expects(&Event::Spawned));
    assert!(!supervisor.expects(&Event::Published { watched: true }));
    assert!(!supervisor.expects(&Event::Slept));
    assert!(!supervisor.expects(&Event::Aborted));
    assert!(!supervisor.expects(&Event::CleanedUp(Ok(()))));
    assert!(!supervisor.expects(&Event::Recovered(Ok(ShutdownTask {}))));
    assert!(supervisor.expects(&Event::Joined(Ok(Fall::Shutdown {
        task: ShutdownTask {}
    }))));
}

#[test]
fn a_shutdown_is_reported_by_name() {
    match observe::<ShutdownTask>(Event::Explained(Grounds::Shutdown)) {
        Observation::Explained { err } => {
            assert_eq!(count_chain(&err), 1);
            assert_eq!(read_chain(&err, 0).as_deref(), Some("Shutdown"));
        }
        _ => panic!("the shutdown is explained"),
    }
    assert_eq!(
        read_chain(&Grounds::Shutdown.report(), 0).as_deref(),
        Some("Shutdown")
    );
}

#[test]
fn decisions_follow_what_was_observed() {
    let turn = pushing().decide(Observation::Fell {
        task: ShutdownTask {},
        shutdown: signal(),
        err: eyre::Report::msg("alone"),
        links: 2,
    });
    assert_eq!(texts(&turn.notes), vec!["Error 1/2", "Error 2/2"]);
    assert_eq!(turn.notes[1].error, Some(1));
    assert_eq!(
        turn.error_message(&turn.notes[0]).as_deref(),
        Some("alone")
    );
    assert_eq!(turn.error_message(&turn.notes[1]), None);
    assert!(matches!(
        turn.action,
        Action::Publish(TaskStatus::Recovering(_))
    ));
}

#[test]
fn statuses_follow_the_lifecycle() {
    let mut seen: Vec<String> = Vec::new();
    let mut respawned: usize = 0;
    let (status, mut turn) = Supervisor::start(ShutdownTask {}, signal());
    seen.push(status.to_string());
    loop {
        let event = match turn.action {
            Action::Spawn { .. } => Event::Spawned,
            Action::Respawn { restarts, .. } => {
                respawned += 1;
                assert_eq!(restarts, respawned);
                Event::Spawned
            }
            Action::Publish(status) => {
                seen.push(status.to_string());
                Event::Published { watched: true }
            }
            Action::Join if respawned < 2 => Event::Joined(Ok(Fall::Recoverable {
                task: ShutdownTask {},
                err: eyre::Report::msg("stumbled"),
                shutdown: signal(),
            })),
            Action::Join => Event::Joined(Ok(Fall::Shutdown {
                task: ShutdownTask {},
            })),
            Action::Recover(task) => Event::Recovered(Ok(task)),
            Action::Abort => Event::Aborted,
            Action::CleanUp(_) => Event::CleanedUp(Ok(())),
            Action::Sleep => Event::Slept,
            Action::Explain(grounds) => Event::Explained(grounds),
            Action::End(ending) => {
                assert!(matches!(ending, Ending::Done));
                break;
            }
        };
        turn = step(turn.supervisor, event);
    }
    assert_eq!(respawned, 2);
    assert_eq!(
        seen,
        vec![
            "Starting",
            "Running",
            "Restarting:\nstumbled",
            "Running",
            "Restarting:\nstumbled",
            "Running",
            "Stopped:\nShutdown",
        ]
    );
}

/// An error that cannot be rendered at all.
#[derive(Debug)]
struct Unspeakable;

impl fmt::Display for Unspeakable {
    fn fmt(&self, _f: &mut fmt::Formatter<'_>) -> fmt::Result {
        panic!("not to be said")
    }
}

impl std::error::Error for Unspeakable {}

#[test]
fn errors_are_noted_without_being_rendered() {
    let turn = step(
        pushing(),
        Event::Joined(Ok(Fall::Recoverable {
            task: ShutdownTask {},
            err: eyre::Report::new(Unspeakable),
            shutdown: signal(),
        })),
    );
    assert_eq!(texts(&turn.notes), vec!["Error 1/1"]);
    assert!(turn.report().map_or(false, |err| err.is::<Unspeakable>()));
    let turn = step(turn.supervisor, Event::Published { watched: true });
    assert!(turn.report().is_none());
    assert!(matches!(turn.action, Action::Recover(_)));

    let turn = step(
        pushing(),
        Event::Joined(Ok(Fall::Unrecoverable {
            exceptional: true,
            err: eyre::Report::new(Unspeakable),
            task: ShutdownTask {},
        })),
    );
    assert_eq!(texts(&turn.notes), vec!["Error 1/1", "Task Cleaning up.."]);
    assert!(turn.report().map_or(false, |err| err.is::<Unspeakable>()));
    let turn = step(turn.supervisor, Event::CleanedUp(Ok(())));
    assert!(matches!(
        turn.action,
        Action::Publish(TaskStatus::Stopped {
            exceptional: true,
            ..
        })
    ));
}

/// A task that cannot say how long to pause.
struct Restless;

impl fmt::Display for Restless {
    fn fmt(&self, f: &mut fmt::Formatter<'_>) -> fmt::Result {
        f.write_str("Restless")
    }
}

impl Boulder for Restless {
    fn restart_after_ms(&self) -> u64 {
        panic!("no rest")
    }

    fn spawn(self, _shutdown: ShutdownSignal) -> JoinHandle<Fall<Self>> {
        tokio::spawn(future::pending())
    }
}

#[test]
fn a_restart_is_noted_before_the_task_is_asked_to_pause() {
    let supervisor: Supervisor<Restless> = Supervisor {
        phase: Phase::Recovering { shutdown: signal() },
        restarts: 0,
    };
    let turn = step(supervisor, Event::Recovered(Ok(Restless)));
    assert_eq!(texts(&turn.notes), vec!["Task Restarting ↺"]);
    assert!(matches!(turn.action, Action::Sleep));
}
