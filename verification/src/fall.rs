//! How a task ends its run.

use tokio::sync::oneshot;
use vstd::prelude::*;

use crate::boulder::Boulder;
use crate::outside::begins_with;

verus! {

/// The shutdown signal for the task
///
/// Awaiting it waits until the owner of the task asks it to shut down.
#[derive(Debug)]
pub struct ShutdownSignal(oneshot::Receiver<()>);

impl ShutdownSignal {
    /// The channel on which the signal arrives.
    pub closed spec fn receiver(self) -> oneshot::Receiver<()> {
        self.0
    }

    /// The signal that arrives on `receiver`.
    pub fn new(receiver: oneshot::Receiver<()>) -> (signal: Self)
        ensures
            signal.receiver() == receiver,
    {
        ShutdownSignal(receiver)
    }

    /// The channel on which the signal arrives, to wait on without giving the signal up.
    pub fn receiver_mut(&mut self) -> (receiver: &mut oneshot::Receiver<()>)
        ensures
            *receiver == old(self).receiver(),
            final(self).receiver() == *final(receiver),
    {
        &mut self.0
    }
}

impl std::future::IntoFuture for ShutdownSignal {
    type Output = Result<(), oneshot::error::RecvError>;

    type IntoFuture = oneshot::Receiver<()>;

    fn into_future(self) -> (receiver: oneshot::Receiver<()>)
        ensures
            receiver == self.receiver(),
    {
        self.0
    }
}

/// An error when pushing a `Boulder`
///
/// ## Recoverability
///
/// [`Boulder`]s explicitly mark themselves as `Recoverable` or `Unrecoverable`
/// and further mark unrecoverable errors as `exceptional`, and no outside
/// runner is required to guess or attempt to handle errors.
///
/// ## Tracing
///
/// Recoverable errors will be traced at `DEBUG`. These are considered normal
/// program execution, and indicate temporary failures like a rate-limit
///
/// Exceptional unrecoverable errors will be traced at `ERROR` level, while
/// unexceptional errors will be traced at `TRACE`. Unexceptional errors are
/// typically program lifecycle events. E.g. a task cancellation, shutdown
/// signal, upstream or downstream pipe failure (indicating another task has
/// permanently dropped its pipe), &c.
#[derive(Debug)]
pub enum Fall<T> {
    /// A recoverable issue
    Recoverable {
        /// The task that triggered the issue, for re-spawning
        task: T,
        /// The issue that triggered the fall
        err: eyre::Report,
        /// The shutdown channel, for gracefully shutting down the task
        shutdown: ShutdownSignal,
    },
    /// An unrecoverable issue
    Unrecoverable {
        /// Whether it should be considered exceptional.
        exceptional: bool,
        /// The issue that triggered the fall
        err: eyre::Report,
        /// The task that triggered the issue
        task: T,
    },
    /// The signal for shutting down the task has been sent
    Shutdown {
        /// The task that triggered the issue
        task: T,
    },
}

/// Convenience trait for converting errors to [`Fall`]
///
/// Every `std::error::Error` that a report can be made from has it. The report is what the error's
/// conversion makes of it.
pub trait ErrExt: Into<eyre::Report> {
    /// Convert an error to a recoverable [`Fall`]
    fn recoverable<Task>(self, task: Task, shutdown: ShutdownSignal) -> (fall: Fall<Task>) where
        Task: Boulder,
        ensures
            fall matches Fall::Recoverable { task: fallen, err, shutdown: signal } && fallen == task
                && signal == shutdown && call_ensures(Self::into, (self,), err),
    {
        Fall::Recoverable { task, shutdown, err: self.into() }
    }

    /// Convert an error to an unrecoverable [`Fall`]
    fn unrecoverable<Task>(self, task: Task, exceptional: bool) -> (fall: Fall<Task>) where
        Task: Boulder,
        ensures
            fall matches Fall::Unrecoverable { exceptional: marked, err, task: fallen } && fallen
                == task && marked == exceptional && call_ensures(Self::into, (self,), err),
    {
        Fall::Unrecoverable { exceptional, err: self.into(), task }
    }

    /// Convert an error to an exceptional, unrecoverable [`Fall`]
    fn log_unrecoverable<Task>(self, task: Task) -> (fall: Fall<Task>) where Task: Boulder,
        ensures
            fall matches Fall::Unrecoverable { exceptional, err, task: fallen } && fallen == task
                && exceptional && call_ensures(Self::into, (self,), err),
    {
        self.unrecoverable(task, true)
    }

    /// Convert an error to an unexceptional, unrecoverable [`Fall`]
    fn silent_unrecoverable<Task>(self, task: Task) -> (fall: Fall<Task>) where Task: Boulder,
        ensures
            fall matches Fall::Unrecoverable { exceptional, err, task: fallen } && fallen == task
                && !exceptional && call_ensures(Self::into, (self,), err),
    {
        self.unrecoverable(task, false)
    }
}

impl<T> ErrExt for T where T: Into<eyre::Report> {

}

/// An error that falls is kept as it was: the chain of the report that it falls with begins with
/// the error itself, and no further message stands before it.
pub proof fn law_error_is_kept<E>(error: E, err: eyre::Report) where
    E: std::error::Error + Send + Sync + 'static,
    requires
        call_ensures(<E as Into<eyre::Report>>::into, (error,), err),
    ensures
        begins_with(&err, &error),
{
}

} // verus!
