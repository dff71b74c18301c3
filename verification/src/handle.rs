//! The handle on a running task.

use std::sync::atomic::{AtomicUsize, Ordering};
use std::sync::Arc;
use tokio::sync::{oneshot, watch};
use tokio::task::{JoinError, JoinHandle};
use vstd::prelude::*;

use crate::outside::current_status;
use crate::status::TaskStatus;

verus! {

/// A wrapper around a task that should run forever.
///
/// It exposes an interface for gracefully shutting down the task, as well as
/// inspecting the task's state. Sisyphus tasks do NOT produce an output. If you
/// would like to extract data from the task, make sure that your `Boulder`
/// includes a channel
///
/// ### Lifecycle
///
/// Sisyphus tasks follow a simple lifecycle:
/// - Before the task has commenced work it is `Starting`
/// - Once work has commenced it is `Running`
/// - If work was interrupted it goes to 1 of 3 states:
///     - `Recovering(eyre::Report)` - indicates that the task encountered a
///       recoverable error, and will resume running shortly. At that state, the
///       task's `recover` function is called
///     - `Stopped(eyre::Report)` - indicates that the task encountered an
///       unrecoverable error and will not resume running
///     - `Panicked` - indicates that the task has panicked, and will not resume
///       running. A task that cannot recover goes there too
/// - If the shutdown signal is received, it goes into `Stopped`. At that state, the
///   task's `cleanup` function is called
///
/// ### Why `eyre::Report`? Why not an associated `Error` type?
///
/// A `Boulder` is opaque to the environment relying on it. Its lifecycle
/// should be managed by its internal crash+recovery loop. Associated error
/// types add significant complexity to the management system (e.g. adding an
/// error output would require a generic trait bound as follows:
/// `Sisyphus<T: Boulder> { _phantom: PhantomData<T>}`
///
/// To avoid code complexity AND prevent developers from interfering in the
/// lifecycle of the task, we do not allow easy error handling. In other words,
/// errors are intended to be either ignored or traced, never handled. Because
/// its errors are not intended to be handled, we do not expose them to the
/// outside world.
pub struct Sisyphus {
    restarts: Arc<AtomicUsize>,
    status: watch::Receiver<TaskStatus>,
    shutdown: oneshot::Sender<()>,
    task: JoinHandle<()>,
}

impl Sisyphus {
    /// The counter of restarts, shared with the loop that pushes the task.
    pub closed spec fn counter(self) -> Arc<AtomicUsize> {
        self.restarts
    }

    /// The channel on which the loop publishes the task's status.
    pub closed spec fn channel(self) -> watch::Receiver<TaskStatus> {
        self.status
    }

    /// The channel that shuts the task down.
    pub closed spec fn stopper(self) -> oneshot::Sender<()> {
        self.shutdown
    }

    /// The loop that pushes the task.
    pub closed spec fn task(self) -> JoinHandle<()> {
        self.task
    }

    /// Whether the channel can have shown `status`.
    pub closed spec fn shows(self, status: TaskStatus) -> bool {
        call_ensures(current_status, (&self.status,), status)
    }

    /// Whether the counter can have stood at `n`.
    pub closed spec fn counts(self, n: usize) -> bool {
        call_ensures(AtomicUsize::load, (&*self.restarts, Ordering::Relaxed), n)
    }

    /// Whether the shutdown command has been issued: sending it on the task's channel has had an
    /// outcome.
    pub open spec fn told_to_stop(self) -> bool {
        exists|sent: Result<(), ()>|
            call_ensures(oneshot::Sender::<()>::send, (self.stopper(), ()), sent)
    }

    /// The handle made of the ends that the loop leaves to the task's owner.
    pub fn new(
        restarts: Arc<AtomicUsize>,
        status: watch::Receiver<TaskStatus>,
        shutdown: oneshot::Sender<()>,
        task: JoinHandle<()>,
    ) -> (handle: Self)
        ensures
            handle.counter() == restarts,
            handle.channel() == status,
            handle.stopper() == shutdown,
            handle.task() == task,
    {
        Sisyphus { restarts, status, shutdown, task }
    }

    /// Issue a shutdown command to the task.
    ///
    /// This sends a shutdown command to the relevant task.
    ///
    /// ### Returns
    ///
    /// The `JoinHandle` to the task, so it can be awaited (if necessary).
    pub fn shutdown(self) -> (task: JoinHandle<()>)
        ensures
            task == self.task(),
            self.told_to_stop(),
            exists|sent: Result<(), ()>|
                call_ensures(oneshot::Sender::<()>::send, (self.stopper(), ()), sent),
    {
        let _ = self.shutdown.send(());
        self.task
    }

    /// What a caller that waited for a change of status learns.
    ///
    /// `changed` is how the wait on the channel ended.
    ///
    /// # Returns
    ///
    /// - `Ok(TaskStatus)`: The new task status if it has changed.
    /// - `Err(watch::error::RecvError)`: An error indicating that the status channel is closed.
    pub fn watch_status(&self, changed: Result<(), watch::error::RecvError>) -> (status: Result<
        TaskStatus,
        watch::error::RecvError,
    >)
        ensures
            match changed {
                Ok(_) => status matches Ok(new) && self.shows(new),
                Err(closed) => status == Err::<TaskStatus, watch::error::RecvError>(closed),
            },
    {
        match changed {
            Ok(_) => Ok(self.status()),
            Err(closed) => Err(closed),
        }
    }

    /// The channel of statuses, to wait for a change on.
    pub fn status_channel(&mut self) -> (channel: &mut watch::Receiver<TaskStatus>)
        ensures
            *channel == old(self).channel(),
            final(self).channel() == *final(channel),
            final(self).counter() == old(self).counter(),
            final(self).stopper() == old(self).stopper(),
            final(self).task() == old(self).task(),
    {
        &mut self.status
    }

    /// Return the task's current status
    pub fn status(&self) -> (status: TaskStatus)
        ensures
            self.shows(status),
    {
        current_status(&self.status)
    }

    /// The number of times the task has restarted
    pub fn restarts(&self) -> (restarts: usize)
        ensures
            self.counts(restarts),
    {
        self.restarts.load(Ordering::Relaxed)
    }
}

impl std::future::IntoFuture for Sisyphus {
    type Output = Result<(), JoinError>;

    type IntoFuture = JoinHandle<()>;

    fn into_future(self) -> (task: JoinHandle<()>)
        ensures
            task == self.task(),
    {
        self.task
    }
}

/// Shutting a task down sends the shutdown command on the very channel that its handle was made
/// with, whatever the other ends hold; and it gives back the very loop to await.
pub proof fn law_shutdown_is_sent(
    restarts: Arc<AtomicUsize>,
    status: watch::Receiver<TaskStatus>,
    shutdown: oneshot::Sender<()>,
    task: JoinHandle<()>,
    handle: Sisyphus,
    awaited: JoinHandle<()>,
)
    requires
        call_ensures(Sisyphus::new, (restarts, status, shutdown, task), handle),
        call_ensures(Sisyphus::shutdown, (handle,), awaited),
    ensures
        awaited == task,
        exists|sent: Result<(), ()>|
            call_ensures(oneshot::Sender::<()>::send, (shutdown, ()), sent),
{
}

/// The status that a handle tells is the one that a look at the channel it was made with gives,
/// whichever that is, with its error and its mark; a caller that waited for a change learns it too.
pub(crate) proof fn law_status_is_the_channels(
    restarts: Arc<AtomicUsize>,
    status: watch::Receiver<TaskStatus>,
    shutdown: oneshot::Sender<()>,
    task: JoinHandle<()>,
    handle: Sisyphus,
    told: TaskStatus,
    changed: Result<(), watch::error::RecvError>,
    learnt: Result<TaskStatus, watch::error::RecvError>,
)
    requires
        call_ensures(Sisyphus::new, (restarts, status, shutdown, task), handle),
        call_ensures(Sisyphus::status, (&handle,), told),
        call_ensures(Sisyphus::watch_status, (&handle, changed), learnt),
    ensures
        call_ensures(current_status, (&status,), told),
        match changed {
            Ok(_) => learnt matches Ok(new) && call_ensures(current_status, (&status,), new),
            Err(closed) => learnt == Err::<TaskStatus, watch::error::RecvError>(closed),
        },
{
}

/// The number of restarts that a handle tells is the number that its counter gives when it is
/// loaded, whichever that is.
pub proof fn law_restarts_are_the_counters(
    restarts: Arc<AtomicUsize>,
    status: watch::Receiver<TaskStatus>,
    shutdown: oneshot::Sender<()>,
    task: JoinHandle<()>,
    handle: Sisyphus,
    told: usize,
)
    requires
        call_ensures(Sisyphus::new, (restarts, status, shutdown, task), handle),
        call_ensures(Sisyphus::restarts, (&handle,), told),
    ensures
        call_ensures(AtomicUsize::load, (&*restarts, Ordering::Relaxed), told),
{
}

} // verus!
