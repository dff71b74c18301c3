//! The decisions of the loop that pushes a task.
//!
//! A [`Supervisor`] does nothing itself. Each [`Turn`] tells its driver what to note in the log and
//! which [`Action`] to take; the driver takes it and hands back the [`Event`] that came of it.

use std::sync::Arc;
use tokio::task::JoinError;
use vstd::prelude::*;

use crate::boulder::Boulder;
use crate::fall::{Fall, ShutdownSignal};
use crate::outside::{
    begins_with, chain_counts, chain_reads, count_chain, message_report, read_chain, says, text_of,
};
use crate::status::TaskStatus;
use crate::trace::{chain_notes, remark, views, Level, Note, NoteView, Scope};

verus! {

/// What came of an action.
#[derive(Debug)]
pub enum Event<T> {
    /// The task was spawned
    Spawned,
    /// A status was sent, and somebody was there to see it or not
    Published {
        /// Whether anybody watches the status
        watched: bool,
    },
    /// The spawned task ended
    Joined(Result<Fall<T>, JoinError>),
    /// The task's recovery ended
    Recovered(Result<T, eyre::Report>),
    /// What was left of the spawned task was aborted
    Aborted,
    /// The task's cleanup ended
    CleanedUp(Result<(), eyre::Report>),
    /// The pause before a restart is over
    Slept,
    /// The notes on a stop were written, and here are its grounds back
    Explained(Grounds),
}

/// An event, with what its errors have to say of it.
#[derive(Debug)]
pub enum Observation<T> {
    /// The task was spawned
    Spawned,
    /// A status was sent
    Published {
        /// Whether anybody watches the status
        watched: bool,
    },
    /// The task fell, and can go on
    Fell {
        /// The task
        task: T,
        /// Its shutdown signal
        shutdown: ShutdownSignal,
        /// The error
        err: eyre::Report,
        /// How many errors there are along the error's chain
        links: usize,
    },
    /// The task fell, and cannot go on
    Broke {
        /// The task
        task: T,
        /// Whether the error is exceptional
        exceptional: bool,
        /// The error
        err: eyre::Report,
        /// How many errors there are along the error's chain
        links: usize,
    },
    /// The task shut down because it was told to
    ShutDown {
        /// The task
        task: T,
    },
    /// The task was cancelled
    Cancelled {
        /// The error that says so
        error: JoinError,
    },
    /// The task panicked
    Panicked {
        /// The error that carries the panic
        error: JoinError,
    },
    /// The task recovered
    Recovered {
        /// The task
        task: T,
    },
    /// The task could not recover
    RecoveryFailed {
        /// The error
        err: eyre::Report,
    },
    /// What was left of the spawned task was aborted
    Aborted,
    /// The task's cleanup ended
    CleanedUp(Result<(), eyre::Report>),
    /// The pause before a restart is over
    Slept,
    /// The grounds of a stop were put into a report
    Explained {
        /// The report to publish
        err: eyre::Report,
    },
}

/// Why a task stops that met no error of its own.
#[derive(Debug)]
pub enum Grounds {
    /// It was told to shut down
    Shutdown,
    /// It was cancelled, as the error says
    Cancellation(JoinError),
}

/// What the driver does next.
#[derive(Debug)]
pub enum Action<T> {
    /// Spawn the task for the first time
    Spawn {
        /// The task
        task: T,
        /// Its shutdown signal
        shutdown: ShutdownSignal,
    },
    /// Spawn the task again
    Respawn {
        /// The task
        task: T,
        /// Its shutdown signal
        shutdown: ShutdownSignal,
        /// How often it has restarted, this time included
        restarts: usize,
    },
    /// Send a status
    Publish(TaskStatus),
    /// Wait for the spawned task to end
    Join,
    /// Let the task recover
    Recover(T),
    /// Abort what is left of the spawned task
    Abort,
    /// Let the task clean up
    CleanUp(T),
    /// Pause for about as long as the task says, which is the supervisor's to ask
    Sleep,
    /// Nothing but to hand the grounds back, the notes once written
    Explain(Grounds),
    /// Leave the loop
    End(Ending),
}

/// How the loop is left.
#[derive(Debug)]
pub enum Ending {
    /// The loop is over: the task has left for good, or nobody was there to see it recover
    Done,
    /// The task could not recover: the loop panics with that error
    RecoveryFailed(eyre::Report),
    /// The task panicked: the loop panics as it did
    Unwind(JoinError),
}

/// Why a task leaves for good.
#[derive(Debug)]
pub enum Departure {
    /// It met an unrecoverable error
    Fault,
    /// It was cancelled
    Cancellation,
    /// It could not recover
    Collapse(eyre::Report),
    /// It panicked
    Panic(JoinError),
}

/// Where the loop stands.
#[derive(Debug)]
pub enum Phase<T> {
    /// The task is being spawned
    Launching,
    /// It is being published that the task runs
    Announcing,
    /// The task runs
    Pushing,
    /// It is being published that the task recovers
    Faltering {
        /// The task
        task: T,
        /// Its shutdown signal
        shutdown: ShutdownSignal,
    },
    /// The task recovers
    Recovering {
        /// Its shutdown signal
        shutdown: ShutdownSignal,
    },
    /// The task waits to be spawned again
    Resting {
        /// The task
        task: T,
        /// Its shutdown signal
        shutdown: ShutdownSignal,
    },
    /// What is left of the spawned task is being aborted
    Aborting {
        /// The task
        task: T,
    },
    /// The grounds of a stop are being put into a report
    Explaining {
        /// The task that was told to shut down; nothing is left of one that was cancelled
        told: Option<T>,
    },
    /// It is being published that the task has stopped, as it was told to
    Stopping {
        /// The task
        task: T,
    },
    /// The task, stopped as it was told to, cleans up
    Retiring,
    /// The task, broken by an error, cleans up
    CleaningUp {
        /// Whether the error is exceptional
        exceptional: bool,
        /// The report to publish
        err: eyre::Report,
    },
    /// The last status is being published
    Leaving(Departure),
    /// The loop is left
    Ended,
}

/// The state of the loop that pushes a task.
#[derive(Debug)]
pub struct Supervisor<T> {
    /// Where the loop stands
    pub phase: Phase<T>,
    /// How often the task has restarted
    pub restarts: usize,
}

/// What a supervisor makes of an event.
#[derive(Debug)]
pub struct Turn<T> {
    /// The supervisor afterwards
    pub supervisor: Supervisor<T>,
    /// What to note in the log before the action is taken
    pub notes: Vec<Note>,
    /// What to do next
    pub action: Action<T>,
}

impl Grounds {
    /// Whether `report` says why the task stops.
    pub open spec fn told_by(self, report: &eyre::Report) -> bool {
        match self {
            Grounds::Shutdown => says(report, "Shutdown"@),
            Grounds::Cancellation(error) => begins_with(report, &error),
        }
    }

    /// Puts the grounds into a report.
    pub fn report(self) -> (report: eyre::Report)
        ensures
            self.told_by(&report),
    {
        match self {
            Grounds::Shutdown => message_report("Shutdown"),
            Grounds::Cancellation(error) => error.into(),
        }
    }
}

/// Whether `observation` is `event`, with what its errors can have to say of it.
pub open spec fn observed<T>(event: Event<T>, observation: Observation<T>) -> bool {
    match event {
        Event::Spawned => observation is Spawned,
        Event::Published { watched } => observation == (Observation::<T>::Published { watched }),
        Event::Joined(Ok(Fall::Recoverable { task, err, shutdown })) => {
            &&& observation matches Observation::Fell { task: t, shutdown: s, err: e, links }
            &&& t == task && s == shutdown && e == err
            &&& chain_counts(&err, links) && links >= 1
        },
        Event::Joined(Ok(Fall::Unrecoverable { exceptional, err, task })) => {
            &&& observation matches Observation::Broke { task: t, exceptional: x, err: e, links }
            &&& t == task && x == exceptional && e == err
            &&& chain_counts(&err, links) && links >= 1
        },
        Event::Joined(Ok(Fall::Shutdown { task })) => observation == (Observation::ShutDown {
            task,
        }),
        Event::Joined(Err(error)) => {
            ||| call_ensures(JoinError::is_panic, (&error,), true) && observation == (
            Observation::<T>::Panicked { error })
            ||| call_ensures(JoinError::is_panic, (&error,), false) && observation == (
            Observation::<T>::Cancelled { error })
        },
        Event::Recovered(Ok(task)) => observation == (Observation::Recovered { task }),
        Event::Recovered(Err(err)) => observation == (Observation::<T>::RecoveryFailed { err }),
        Event::Aborted => observation is Aborted,
        Event::CleanedUp(outcome) => observation == Observation::<T>::CleanedUp(outcome),
        Event::Slept => observation is Slept,
        Event::Explained(grounds) => {
            &&& observation matches Observation::Explained { err }
            &&& grounds.told_by(&err)
        },
    }
}

/// Asks the errors in `event` what they have to say of it, short of rendering them.
pub fn observe<T>(event: Event<T>) -> (observation: Observation<T>)
    ensures
        observed(event, observation),
{
    match event {
        Event::Spawned => Observation::Spawned,
        Event::Published { watched } => Observation::Published { watched },
        Event::Joined(Ok(Fall::Recoverable { task, err, shutdown })) => {
            let links: usize = count_chain(&err);
            Observation::Fell { task, shutdown, err, links }
        },
        Event::Joined(Ok(Fall::Unrecoverable { exceptional, err, task })) => {
            let links: usize = count_chain(&err);
            Observation::Broke { task, exceptional, err, links }
        },
        Event::Joined(Ok(Fall::Shutdown { task })) => Observation::ShutDown { task },
        Event::Joined(Err(error)) => {
            if error.is_panic() {
                Observation::Panicked { error }
            } else {
                Observation::Cancelled { error }
            }
        },
        Event::Recovered(Ok(task)) => Observation::Recovered { task },
        Event::Recovered(Err(err)) => Observation::RecoveryFailed { err },
        Event::Aborted => Observation::Aborted,
        Event::CleanedUp(outcome) => Observation::CleanedUp(outcome),
        Event::Slept => Observation::Slept,
        Event::Explained(grounds) => Observation::Explained { err: grounds.report() },
    }
}

impl<T> Phase<T> {
    /// Whether this is the phase that `event` ends.
    pub open spec fn awaits_event(self, event: Event<T>) -> bool {
        match self {
            Phase::Launching => event is Spawned,
            Phase::Announcing => event is Published,
            Phase::Pushing => event is Joined,
            Phase::Faltering { .. } => event is Published,
            Phase::Recovering { .. } => event is Recovered,
            Phase::Resting { .. } => event is Slept,
            Phase::Aborting { .. } => event is Aborted,
            Phase::Explaining { told } => {
                &&& event matches Event::Explained(grounds)
                &&& told is Some <==> grounds is Shutdown
            },
            Phase::Stopping { .. } => event is Published,
            Phase::Retiring => event is CleanedUp,
            Phase::CleaningUp { .. } => event is CleanedUp,
            Phase::Leaving(_) => event is Published,
            Phase::Ended => false,
        }
    }

    /// Whether this is the phase that `observation` ends.
    pub open spec fn awaits(self, observation: Observation<T>) -> bool {
        match self {
            Phase::Launching => observation is Spawned,
            Phase::Announcing => observation is Published,
            Phase::Pushing => {
                ||| observation is Fell
                ||| observation is Broke
                ||| observation is ShutDown
                ||| observation is Cancelled
                ||| observation is Panicked
            },
            Phase::Faltering { .. } => observation is Published,
            Phase::Recovering { .. } => observation is Recovered || observation is RecoveryFailed,
            Phase::Resting { .. } => observation is Slept,
            Phase::Aborting { .. } => observation is Aborted,
            Phase::Explaining { .. } => observation is Explained,
            Phase::Stopping { .. } => observation is Published,
            Phase::Retiring => observation is CleanedUp,
            Phase::CleaningUp { .. } => observation is CleanedUp,
            Phase::Leaving(_) => observation is Published,
            Phase::Ended => false,
        }
    }
}

impl<T> Supervisor<T> {
    /// The supervisor of a task that is being spawned for the first time.
    pub open spec fn fresh() -> Self {
        Supervisor { phase: Phase::Launching, restarts: 0 }
    }

    /// Where the loop stands after `observation`.
    pub open spec fn next_phase(self, observation: Observation<T>) -> Phase<T> {
        match (self.phase, observation) {
            (Phase::Launching, _) => Phase::Announcing,
            (Phase::Announcing, Observation::Published { .. }) => Phase::Pushing,
            (Phase::Pushing, Observation::Fell { task, shutdown, .. }) => Phase::Faltering {
                task,
                shutdown,
            },
            (Phase::Pushing, Observation::Broke { exceptional, err, .. }) => Phase::CleaningUp {
                exceptional,
                err,
            },
            (Phase::Pushing, Observation::ShutDown { task }) => Phase::Aborting { task },
            (Phase::Pushing, Observation::Cancelled { .. }) => Phase::Explaining { told: None },
            (Phase::Pushing, Observation::Panicked { error }) => Phase::Leaving(
                Departure::Panic(error),
            ),
            (
                Phase::Faltering { shutdown, .. },
                Observation::Published { watched: true },
            ) => Phase::Recovering { shutdown },
            (
                Phase::Recovering { shutdown },
                Observation::Recovered { task },
            ) => Phase::Resting { task, shutdown },
            (
                Phase::Recovering { .. },
                Observation::RecoveryFailed { err },
            ) => Phase::Leaving(Departure::Collapse(err)),
            (Phase::Resting { .. }, _) => Phase::Launching,
            (Phase::Aborting { task }, _) => Phase::Explaining { told: Some(task) },
            (Phase::Explaining { told: Some(task) }, _) => Phase::Stopping { task },
            (Phase::Explaining { told: None }, _) => Phase::Leaving(Departure::Cancellation),
            (Phase::Stopping { .. }, _) => Phase::Retiring,
            (Phase::CleaningUp { .. }, _) => Phase::Leaving(Departure::Fault),
            _ => Phase::Ended,
        }
    }

    /// How often the task has restarted after `observation`: once more when its pause is over. The
    /// count wraps around.
    pub open spec fn next_restarts(self, observation: Observation<T>) -> usize {
        if !(observation is Slept) {
            self.restarts
        } else if self.restarts == usize::MAX {
            0
        } else {
            (self.restarts + 1) as usize
        }
    }

    /// What to do after `observation`.
    pub open spec fn next_action(self, observation: Observation<T>) -> Action<T> {
        match (self.phase, observation) {
            (Phase::Launching, _) => Action::Publish(TaskStatus::Running),
            (Phase::Announcing, Observation::Published { .. }) => Action::Join,
            (Phase::Pushing, Observation::Fell { err, .. }) => Action::Publish(
                TaskStatus::Recovering(Arc::new(err)),
            ),
            (Phase::Pushing, Observation::Broke { task, .. }) => Action::CleanUp(task),
            (Phase::Pushing, Observation::ShutDown { .. }) => Action::Abort,
            (Phase::Pushing, Observation::Cancelled { error }) => Action::Explain(
                Grounds::Cancellation(error),
            ),
            (Phase::Pushing, Observation::Panicked { .. }) => Action::Publish(TaskStatus::Panicked),
            (Phase::Faltering { task, .. }, Observation::Published { watched: true }) => {
                Action::Recover(task)
            },
            (Phase::Recovering { .. }, Observation::Recovered { .. }) => Action::Sleep,
            (Phase::Recovering { .. }, Observation::RecoveryFailed { .. }) => Action::Publish(
                TaskStatus::Panicked,
            ),
            (Phase::Resting { task, shutdown }, _) => Action::Respawn {
                task,
                shutdown,
                restarts: self.next_restarts(observation),
            },
            (Phase::Aborting { .. }, _) => Action::Explain(Grounds::Shutdown),
            (Phase::Explaining { .. }, Observation::Explained { err }) => Action::Publish(
                TaskStatus::Stopped { exceptional: false, err: Arc::new(err) },
            ),
            (Phase::Stopping { task }, _) => Action::CleanUp(task),
            (Phase::CleaningUp { exceptional, err }, _) => Action::Publish(
                TaskStatus::Stopped { exceptional, err: Arc::new(err) },
            ),
            (Phase::Leaving(Departure::Collapse(err)), _) => Action::End(
                Ending::RecoveryFailed(err),
            ),
            (Phase::Leaving(Departure::Panic(error)), _) => Action::End(Ending::Unwind(error)),
            _ => Action::End(Ending::Done),
        }
    }

    /// What to note in the log after `observation`.
    pub open spec fn next_notes(self, observation: Observation<T>) -> Seq<NoteView> {
        match (self.phase, observation) {
            (Phase::Pushing, Observation::Fell { links, .. }) => chain_notes(None, links),
            (Phase::Pushing, Observation::Broke { exceptional, links, .. }) => chain_notes(
                Some(exceptional),
                links,
            ).push(remark(Level::Warn, Scope::Unrecoverable, "Task Cleaning up.."@)),
            (Phase::Pushing, Observation::Cancelled { .. }) => seq![
                remark(Level::Trace, Scope::Task, "Internal task cancelled"@),
            ],
            (Phase::Faltering { .. }, Observation::Published { watched: true }) => seq![
                remark(Level::Warn, Scope::Recoverable, "Task Recovering..."@),
            ],
            (Phase::Recovering { .. }, Observation::Recovered { .. }) => seq![
                remark(Level::Warn, Scope::Recoverable, "Task Restarting ↺"@),
            ],
            (Phase::Aborting { .. }, _) => seq![
                remark(Level::Trace, Scope::Shutdown, "Handle aborted"@),
            ],
            (Phase::Retiring, _) => seq![
                remark(Level::Trace, Scope::Shutdown, "Cleanup ran"@),
            ],
            (Phase::Leaving(Departure::Fault), _) => seq![
                remark(Level::Warn, Scope::Unrecoverable, "Task Shutting down Ⓧ"@),
            ],
            (Phase::Leaving(Departure::Panic(_)), _) => seq![
                remark(Level::Error, Scope::Task, "Internal task panicked"@),
            ],
            _ => Seq::empty(),
        }
    }

    /// Whether `turn` is what the supervisor makes of `observation`.
    pub open spec fn makes(self, observation: Observation<T>, turn: Turn<T>) -> bool {
        &&& turn.supervisor.phase == self.next_phase(observation)
        &&& turn.supervisor.restarts == self.next_restarts(observation)
        &&& views(turn.notes@) == self.next_notes(observation)
        &&& turn.action == self.next_action(observation)
    }

    /// Begins to push `task`. Gives the status to show until the first one is published, and the
    /// first turn.
    pub fn start(task: T, shutdown: ShutdownSignal) -> (begun: (TaskStatus, Turn<T>))
        ensures
            begun.0 is Starting,
            begun.1.supervisor == Self::fresh(),
            begun.1.notes@ == Seq::<Note>::empty(),
            begun.1.action == (Action::Spawn { task, shutdown }),
    {
        let turn = Turn {
            supervisor: Supervisor { phase: Phase::Launching, restarts: 0 },
            notes: Vec::new(),
            action: Action::Spawn { task, shutdown },
        };
        (TaskStatus::Starting, turn)
    }

    /// Whether the supervisor can make something of `event` now.
    pub fn expects(&self, event: &Event<T>) -> (expected: bool)
        ensures
            expected == self.phase.awaits_event(*event),
    {
        match (&self.phase, event) {
            (Phase::Launching, Event::Spawned) => true,
            (Phase::Announcing, Event::Published { .. }) => true,
            (Phase::Pushing, Event::Joined(_)) => true,
            (Phase::Faltering { .. }, Event::Published { .. }) => true,
            (Phase::Recovering { .. }, Event::Recovered(_)) => true,
            (Phase::Resting { .. }, Event::Slept) => true,
            (Phase::Aborting { .. }, Event::Aborted) => true,
            (Phase::Explaining { told: Some(_) }, Event::Explained(Grounds::Shutdown)) => true,
            (Phase::Explaining { told: None }, Event::Explained(Grounds::Cancellation(_))) => true,
            (Phase::Stopping { .. }, Event::Published { .. }) => true,
            (Phase::Retiring, Event::CleanedUp(_)) => true,
            (Phase::CleaningUp { .. }, Event::CleanedUp(_)) => true,
            (Phase::Leaving(_), Event::Published { .. }) => true,
            _ => false,
        }
    }

    /// Decides what comes after `observation`.
    pub fn decide(self, observation: Observation<T>) -> (turn: Turn<T>)
        requires
            self.phase.awaits(observation),
        ensures
            self.makes(observation, turn),
    {
        let mut restarts: usize = self.restarts;
        let mut notes: Vec<Note> = Vec::new();
        let (phase, action) = match (self.phase, observation) {
            (Phase::Launching, _) => (Phase::Announcing, Action::Publish(TaskStatus::Running)),
            (Phase::Announcing, _) => (Phase::Pushing, Action::Join),
            (Phase::Pushing, Observation::Fell { task, shutdown, err, links }) => {
                notes = Note::on_chain(None, links);
                (
                    Phase::Faltering { task, shutdown },
                    Action::Publish(TaskStatus::Recovering(Arc::new(err))),
                )
            },
            (Phase::Pushing, Observation::Broke { task, exceptional, err, links }) => {
                notes = Note::on_chain(Some(exceptional), links);
                notes.push(Note::remark(Level::Warn, Scope::Unrecoverable, "Task Cleaning up.."));
                (
                    Phase::CleaningUp { exceptional, err },
                    Action::CleanUp(task),
                )
            },
            (Phase::Pushing, Observation::ShutDown { task }) => {
                (Phase::Aborting { task }, Action::Abort)
            },
            (Phase::Pushing, Observation::Cancelled { error }) => {
                notes.push(Note::remark(Level::Trace, Scope::Task, "Internal task cancelled"));
                (
                    Phase::Explaining { told: None },
                    Action::Explain(Grounds::Cancellation(error)),
                )
            },
            (Phase::Pushing, Observation::Panicked { error }) => {
                (Phase::Leaving(Departure::Panic(error)), Action::Publish(TaskStatus::Panicked))
            },
            (Phase::Faltering { task, shutdown }, Observation::Published { watched }) => {
                if watched {
                    notes.push(Note::remark(Level::Warn, Scope::Recoverable, "Task Recovering..."));
                    (Phase::Recovering { shutdown }, Action::Recover(task))
                } else {
                    (Phase::Ended, Action::End(Ending::Done))
                }
            },
            (Phase::Recovering { shutdown }, Observation::Recovered { task }) => {
                notes.push(Note::remark(Level::Warn, Scope::Recoverable, "Task Restarting ↺"));
                (Phase::Resting { task, shutdown }, Action::Sleep)
            },
            (Phase::Recovering { .. }, Observation::RecoveryFailed { err }) => {
                (Phase::Leaving(Departure::Collapse(err)), Action::Publish(TaskStatus::Panicked))
            },
            (Phase::Resting { task, shutdown }, _) => {
                restarts = restarts.wrapping_add(1);
                (Phase::Launching, Action::Respawn { task, shutdown, restarts })
            },
            (Phase::Aborting { task }, _) => {
                notes.push(Note::remark(Level::Trace, Scope::Shutdown, "Handle aborted"));
                (Phase::Explaining { told: Some(task) }, Action::Explain(Grounds::Shutdown))
            },
            (Phase::Explaining { told }, Observation::Explained { err }) => {
                let phase = match told {
                    Some(task) => Phase::Stopping { task },
                    None => Phase::Leaving(Departure::Cancellation),
                };
                (
                    phase,
                    Action::Publish(TaskStatus::Stopped { exceptional: false, err: Arc::new(err) }),
                )
            },
            (Phase::Stopping { task }, _) => (Phase::Retiring, Action::CleanUp(task)),
            (Phase::Retiring, _) => {
                notes.push(Note::remark(Level::Trace, Scope::Shutdown, "Cleanup ran"));
                (Phase::Ended, Action::End(Ending::Done))
            },
            (Phase::CleaningUp { exceptional, err }, _) => {
                (
                    Phase::Leaving(Departure::Fault),
                    Action::Publish(TaskStatus::Stopped { exceptional, err: Arc::new(err) }),
                )
            },
            (Phase::Leaving(Departure::Fault), _) => {
                notes.push(Note::remark(Level::Warn, Scope::Unrecoverable, "Task Shutting down Ⓧ"));
                (Phase::Ended, Action::End(Ending::Done))
            },
            (Phase::Leaving(Departure::Collapse(err)), _) => {
                (Phase::Ended, Action::End(Ending::RecoveryFailed(err)))
            },
            (Phase::Leaving(Departure::Panic(error)), _) => {
                notes.push(Note::remark(Level::Error, Scope::Task, "Internal task panicked"));
                (Phase::Ended, Action::End(Ending::Unwind(error)))
            },
            _ => (Phase::Ended, Action::End(Ending::Done)),
        };
        assert(views(notes@) =~= self.next_notes(observation));
        Turn { supervisor: Supervisor { phase, restarts }, notes, action }
    }

    /// Takes in `event` and decides what comes after it.
    pub fn step(self, event: Event<T>) -> (turn: Turn<T>)
        requires
            self.phase.awaits_event(event),
        ensures
            exists|observation: Observation<T>| #[trigger]
                observed(event, observation) && self.phase.awaits(observation) && self.makes(
                    observation,
                    turn,
                ),
    {
        let observation = observe(event);
        self.decide(observation)
    }
}

impl<T: Boulder> Supervisor<T> {
    /// Asks the task that waits to be spawned again how many milliseconds to pause. There is
    /// nobody to ask in any other phase.
    pub fn pause_ms(&self) -> (ms: Option<u64>)
        ensures
            match self.phase {
                Phase::Resting { task, .. } => ms matches Some(ms) && call_ensures(
                    T::restart_after_ms,
                    (&task,),
                    ms,
                ),
                _ => ms is None,
            },
    {
        match &self.phase {
            Phase::Resting { task, .. } => Some(task.restart_after_ms()),
            _ => None,
        }
    }
}

impl<T> Turn<T> {
    /// The error of the fall that the notes are about, if they are about one.
    pub open spec fn fault(self) -> Option<eyre::Report> {
        match (self.action, self.supervisor.phase) {
            (Action::Publish(TaskStatus::Recovering(err)), _) => Some(*err),
            (_, Phase::CleaningUp { err, .. }) => Some(err),
            _ => None,
        }
    }

    /// The error of the fall that the notes are about, if they are about one.
    pub fn report(&self) -> (report: Option<&eyre::Report>)
        ensures
            match self.fault() {
                Some(err) => report matches Some(found) && *found == err,
                None => report is None,
            },
    {
        match (&self.action, &self.supervisor.phase) {
            (Action::Publish(TaskStatus::Recovering(err)), _) => Some(&**err),
            (_, Phase::CleaningUp { err, .. }) => Some(err),
            _ => None,
        }
    }

    /// The message of the error that `note` is about, rendered now.
    pub fn error_message(&self, note: &Note) -> (message: Option<String>)
        ensures
            match (self.fault(), note.error) {
                (Some(err), Some(place)) => chain_reads(&err, place, text_of(message)) && (place == 0
                    ==> message is Some),
                _ => message is None,
            },
    {
        match (self.report(), note.error) {
            (Some(err), Some(place)) => read_chain(err, place),
            _ => None,
        }
    }
}

} // verus!
