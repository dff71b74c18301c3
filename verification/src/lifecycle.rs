//! What holds of every run of a supervisor.
//!
//! A run is the sequence of observations that a supervisor has made since its task was first
//! spawned.

use std::sync::Arc;
use tokio::task::JoinError;
use vstd::prelude::*;

use crate::fall::ShutdownSignal;
use crate::outside::{begins_with, says};
use crate::status::TaskStatus;
use crate::supervisor::{
    observed, Action, Ending, Event, Grounds, Observation, Phase, Supervisor, Turn,
};
use crate::trace::{label, views};

verus! {

impl<T> Supervisor<T> {
    /// The supervisor after `observation`.
    pub open spec fn next(self, observation: Observation<T>) -> Self {
        Supervisor {
            phase: self.next_phase(observation),
            restarts: self.next_restarts(observation),
        }
    }
}

/// The supervisor at the end of a run.
pub open spec fn after<T>(run: Seq<Observation<T>>) -> Supervisor<T>
    decreases run.len(),
{
    if run.len() == 0 {
        Supervisor::fresh()
    } else {
        after(run.drop_last()).next(run.last())
    }
}

/// Whether each observation of a run came when the supervisor awaited it.
pub open spec fn possible<T>(run: Seq<Observation<T>>) -> bool
    decreases run.len(),
{
    run.len() == 0 || possible(run.drop_last()) && after(run.drop_last()).phase.awaits(run.last())
}

/// What the supervisor did last in a run.
pub open spec fn last_action<T>(run: Seq<Observation<T>>) -> Action<T>
    recommends
        run.len() > 0,
{
    after(run.drop_last()).next_action(run.last())
}

/// The statuses that an observer can see in a run, in order.
pub open spec fn statuses<T>(run: Seq<Observation<T>>) -> Seq<TaskStatus>
    decreases run.len(),
{
    if run.len() == 0 {
        seq![TaskStatus::Starting]
    } else {
        match last_action(run) {
            Action::Publish(status) => statuses(run.drop_last()).push(status),
            _ => statuses(run.drop_last()),
        }
    }
}

/// How many actions of a run are of a kind.
pub open spec fn count<T>(run: Seq<Observation<T>>, kind: spec_fn(Action<T>) -> bool) -> nat
    decreases run.len(),
{
    if run.len() == 0 {
        0
    } else {
        count(run.drop_last(), kind) + if kind(last_action(run)) {
            1nat
        } else {
            0nat
        }
    }
}

/// How often the task was spawned again in a run.
pub open spec fn respawns<T>(run: Seq<Observation<T>>) -> nat {
    count(run, |action: Action<T>| action is Respawn)
}

/// How often it was published in a run that the task runs.
pub open spec fn pushes<T>(run: Seq<Observation<T>>) -> nat {
    count(run, |action: Action<T>| action == Action::<T>::Publish(TaskStatus::Running))
}

/// How often the task was asked to recover in a run.
pub open spec fn recoveries<T>(run: Seq<Observation<T>>) -> nat {
    count(run, |action: Action<T>| action is Recover)
}

/// How often the task was asked to clean up in a run.
pub open spec fn cleanups<T>(run: Seq<Observation<T>>) -> nat {
    count(run, |action: Action<T>| action is CleanUp)
}

/// How many observations of a run are of a kind.
pub open spec fn seen<T>(run: Seq<Observation<T>>, kind: spec_fn(Observation<T>) -> bool) -> nat
    decreases run.len(),
{
    if run.len() == 0 {
        0
    } else {
        seen(run.drop_last(), kind) + if kind(run.last()) {
            1nat
        } else {
            0nat
        }
    }
}

/// How often the task fell recoverably in a run.
pub open spec fn falls<T>(run: Seq<Observation<T>>) -> nat {
    seen(run, |observation: Observation<T>| observation is Fell)
}

/// How often the task recovered in a run.
pub open spec fn recovered<T>(run: Seq<Observation<T>>) -> nat {
    seen(run, |observation: Observation<T>| observation is Recovered)
}

/// How often the task broke, or shut down as it was told to, in a run.
pub open spec fn stops<T>(run: Seq<Observation<T>>) -> nat {
    seen(run, |observation: Observation<T>| observation is Broke || observation is ShutDown)
}

/// Whether a status says that the task will not resume.
pub open spec fn is_last(status: TaskStatus) -> bool {
    status is Stopped || status is Panicked
}

/// Whether the lifecycle leads from `before` to `next`.
pub open spec fn leads_to(before: TaskStatus, next: TaskStatus) -> bool {
    match before {
        TaskStatus::Starting => next is Running,
        TaskStatus::Running => next is Recovering || is_last(next),
        TaskStatus::Recovering(_) => next is Running || next is Panicked,
        TaskStatus::Stopped { .. } => false,
        TaskStatus::Panicked => false,
    }
}

/// Whether `status` can be the last one published when the loop stands in `phase`.
spec fn fits<T>(phase: Phase<T>, status: TaskStatus) -> bool {
    match phase {
        Phase::Launching => status is Starting || status is Recovering,
        Phase::Announcing => status is Running,
        Phase::Pushing => status is Running,
        Phase::Faltering { .. } => status is Recovering,
        Phase::Recovering { .. } => status is Recovering,
        Phase::Resting { .. } => status is Recovering,
        Phase::Aborting { .. } => status is Running,
        Phase::Explaining { .. } => status is Running,
        Phase::Stopping { .. } => status is Stopped,
        Phase::Retiring => status is Stopped,
        Phase::CleaningUp { .. } => status is Running,
        Phase::Leaving(_) => is_last(status),
        Phase::Ended => status is Recovering || is_last(status),
    }
}

/// Whether `event` is what comes of `action`.
pub open spec fn answers<T>(event: Event<T>, action: Action<T>) -> bool {
    match action {
        Action::Spawn { .. } => event is Spawned,
        Action::Respawn { .. } => event is Spawned,
        Action::Publish(_) => event is Published,
        Action::Join => event is Joined,
        Action::Recover(_) => event is Recovered,
        Action::Abort => event is Aborted,
        Action::CleanUp(_) => event is CleanedUp,
        Action::Sleep => event is Slept,
        Action::Explain(grounds) => {
            &&& event matches Event::Explained(back)
            &&& back is Shutdown <==> grounds is Shutdown
        },
        Action::End(_) => false,
    }
}

/// The lifecycle: a task is `Starting` at first, then `Running`; a running task goes to
/// `Recovering`, `Stopped` or `Panicked`; a recovering one goes back to `Running`, or to `Panicked`
/// where it cannot recover.
pub proof fn law_lifecycle<T>(run: Seq<Observation<T>>)
    requires
        possible(run),
    ensures
        statuses(run).len() >= 1,
        statuses(run)[0] is Starting,
        forall|i: int|
            #![trigger statuses(run)[i]]
            0 <= i < statuses(run).len() - 1 ==> leads_to(statuses(run)[i], statuses(run)[i + 1]),
{
    lemma_statuses_fit(run);
}

proof fn lemma_statuses_fit<T>(run: Seq<Observation<T>>)
    requires
        possible(run),
    ensures
        statuses(run).len() >= 1,
        statuses(run)[0] is Starting,
        fits(after(run).phase, statuses(run).last()),
        forall|i: int|
            #![trigger statuses(run)[i]]
            0 <= i < statuses(run).len() - 1 ==> leads_to(statuses(run)[i], statuses(run)[i + 1]),
    decreases run.len(),
{
    if run.len() > 0 {
        lemma_statuses_fit(run.drop_last());
    }
}

/// `Stopped` and `Panicked` are final: no status comes after them, the task is not spawned again,
/// and the loop is left with the next observation, but for the cleanup of a task that has stopped
/// as it was told to.
pub proof fn law_stop_is_final<T>(run: Seq<Observation<T>>, i: int, observation: Observation<T>)
    requires
        possible(run),
        0 <= i < statuses(run).len(),
        is_last(statuses(run)[i]),
    ensures
        i == statuses(run).len() - 1,
        possible(run.push(observation)) ==> {
            ||| last_action(run.push(observation)) is End
            ||| last_action(run.push(observation)) is CleanUp && cleanups(run) == 0
        },
{
    lemma_statuses_fit(run);
    lemma_cleanups(run);
    if i < statuses(run).len() - 1 {
        assert(leads_to(statuses(run)[i], statuses(run)[i + 1]));
    }
    assert(run.push(observation).drop_last() =~= run);
}

/// A task that is no longer pushed is `Stopped` or `Panicked`, unless nobody was there to see it
/// recover.
pub proof fn law_end_is_told<T>(run: Seq<Observation<T>>)
    requires
        possible(run),
        after(run).phase is Ended,
    ensures
        run.len() > 0,
        is_last(statuses(run).last()) || statuses(run).last() is Recovering && run.last() == (
        Observation::<T>::Published { watched: false }),
{
    lemma_unroll(run);
    lemma_statuses_fit(run);
    lemma_statuses_fit(run.drop_last());
}

/// The restart count is the number of times that the task was spawned again, until it wraps
/// around.
pub proof fn law_restarts_are_counted<T>(run: Seq<Observation<T>>)
    requires
        possible(run),
    ensures
        after(run).restarts == respawns(run) % (usize::MAX as nat + 1),
        run.len() > 0 ==> (last_action(run) matches Action::Respawn { restarts, .. } ==> restarts
            == respawns(run) % (usize::MAX as nat + 1)),
    decreases run.len(),
{
    let m = usize::MAX as nat + 1;
    if run.len() > 0 {
        law_restarts_are_counted(run.drop_last());
        let n = respawns(run.drop_last());
        assert(last_action(run) is Respawn <==> run.last() is Slept);
        assert(after(run).restarts == after(run.drop_last()).next_restarts(run.last()));
        if run.last() is Slept {
            assert(respawns(run) == n + 1);
            assert((n + 1) % m == if n % m == m - 1 {
                0
            } else {
                n % m + 1
            }) by (nonlinear_arith)
                requires
                    m > 1,
            ;
        } else {
            assert(respawns(run) == n);
        }
    } else {
        vstd::arithmetic::div_mod::lemma_small_mod(0, m);
        assert(respawns(run) == 0);
    }
}

/// Each time that the task is spawned, it is published once that it runs.
pub proof fn law_runs_once_per_spawn<T>(run: Seq<Observation<T>>)
    requires
        possible(run),
    ensures
        pushes(run) == respawns(run) + if after(run).phase is Launching {
            0nat
        } else {
            1nat
        },
    decreases run.len(),
{
    if run.len() > 0 {
        law_runs_once_per_spawn(run.drop_last());
    }
}

/// A task recovers once for each restart, and is asked to recover only if it fell. The restarts are
/// exactly the recoveries that succeeded, once the pause after the last one is over.
pub proof fn law_recovers_once_per_restart<T>(run: Seq<Observation<T>>)
    requires
        possible(run),
    ensures
        respawns(run) <= recoveries(run) <= respawns(run) + 1,
        recoveries(run) <= falls(run),
        recovered(run) == respawns(run) + if after(run).phase is Resting {
            1nat
        } else {
            0nat
        },
{
    lemma_recoveries(run);
}

proof fn lemma_recoveries<T>(run: Seq<Observation<T>>)
    requires
        possible(run),
    ensures
        respawns(run) <= recoveries(run) <= respawns(run) + 1,
        recoveries(run) <= falls(run),
        after(run).phase is Recovering || after(run).phase is Resting ==> recoveries(run)
            == respawns(run) + 1,
        after(run).phase is Launching || after(run).phase is Announcing || after(run).phase is Pushing
            || after(run).phase is Faltering ==> recoveries(run) == respawns(run),
        after(run).phase is Faltering ==> recoveries(run) < falls(run),
        recovered(run) == respawns(run) + if after(run).phase is Resting {
            1nat
        } else {
            0nat
        },
    decreases run.len(),
{
    if run.len() > 0 {
        lemma_recoveries(run.drop_last());
    }
}

/// The restart count is at zero before the first restart. Only a restart changes it, and adds one;
/// so it never shrinks, until it wraps around. Once the loop is left, it is the number of
/// recoveries that succeeded, and one less than the number of times that the task ran.
pub proof fn law_restarts_only_grow<T>(run: Seq<Observation<T>>, observation: Observation<T>)
    requires
        possible(run),
        possible(run.push(observation)),
        respawns(run) < usize::MAX,
    ensures
        respawns(run) == 0 ==> after(run).restarts == 0,
        after(run.push(observation)).restarts == after(run).restarts + if last_action(
            run.push(observation),
        ) is Respawn {
            1int
        } else {
            0int
        },
        after(run.push(observation)).phase is Ended ==> {
            &&& after(run.push(observation)).restarts == recovered(run.push(observation))
            &&& after(run.push(observation)).restarts == pushes(run.push(observation)) - 1
        },
{
    let longer = run.push(observation);
    assert(longer.drop_last() =~= run);
    law_restarts_are_counted(run);
    law_recovers_once_per_restart(longer);
    law_runs_once_per_spawn(longer);
    vstd::arithmetic::div_mod::lemma_small_mod(respawns(run), usize::MAX as nat + 1);
}

/// A task cleans up exactly once for each time that it breaks or shuts down as it was told to,
/// whoever watches: that is at most once, and then it is never spawned again.
pub proof fn law_cleans_up_once<T>(run: Seq<Observation<T>>, observation: Observation<T>)
    requires
        possible(run),
    ensures
        cleanups(run) <= 1,
        cleanups(run) <= stops(run) <= 1,
        after(run).phase is Ended ==> cleanups(run) == stops(run),
        cleanups(run) == 1 && possible(run.push(observation)) ==> respawns(run.push(observation))
            == respawns(run),
{
    lemma_cleanups(run);
    assert(run.push(observation).drop_last() =~= run);
}

/// Whether a task that was told to shut down has yet to clean up.
spec fn is_due_to_stop<T>(phase: Phase<T>) -> bool {
    ||| phase is Aborting
    ||| phase matches Phase::Explaining { told: Some(_) }
    ||| phase is Stopping
}

proof fn lemma_cleanups<T>(run: Seq<Observation<T>>)
    requires
        possible(run),
    ensures
        cleanups(run) <= 1,
        stops(run) == cleanups(run) + if is_due_to_stop(after(run).phase) {
            1nat
        } else {
            0nat
        },
        is_due_to_stop(after(run).phase) ==> cleanups(run) == 0,
        after(run).phase is CleaningUp || after(run).phase is Retiring ==> cleanups(run) == 1,
        cleanups(run) == 1 ==> after(run).phase is CleaningUp || after(run).phase is Retiring
            || after(run).phase is Leaving || after(run).phase is Ended,
    decreases run.len(),
{
    if run.len() > 0 {
        lemma_cleanups(run.drop_last());
    }
}

/// A recoverable error costs the task nothing but what was in scope: the task that is spawned
/// again is the one that recovery gave back, and its shutdown signal is the one that it fell with.
pub proof fn law_restart_keeps_the_channels<T>(run: Seq<Observation<T>>)
    requires
        possible(run),
        run.len() > 0,
        last_action(run) is Respawn,
    ensures
        run.len() >= 4,
        last_action(run) matches Action::Respawn { task, shutdown, .. } && (
        run[run.len() - 4] matches Observation::Fell { shutdown: held, .. } && held == shutdown) && (
        run[run.len() - 2] matches Observation::Recovered { task: recovered, .. } && recovered
            == task),
{
    lemma_unroll(run);
    lemma_unroll(run.drop_last());
    lemma_unroll(run.drop_last().drop_last());
    lemma_unroll(run.drop_last().drop_last().drop_last());
}

/// A run is the run before its last observation, and that observation.
proof fn lemma_unroll<T>(run: Seq<Observation<T>>)
    requires
        possible(run),
    ensures
        run.len() == 0 ==> after(run).phase is Launching,
        run.len() > 0 ==> {
            &&& possible(run.drop_last())
            &&& after(run.drop_last()).phase.awaits(run.last())
            &&& after(run).phase == after(run.drop_last()).next_phase(run.last())
        },
{
}

/// A task is `Stopped` with an error for one of three reasons: it met that error, marked as the
/// status says, and has cleaned up; it was told to shut down, and what was left of it was aborted;
/// or it was cancelled.
pub proof fn law_why_stopped<T>(run: Seq<Observation<T>>, exceptional: bool, err: eyre::Report)
    requires
        possible(run),
        run.len() > 0,
        last_action(run) == Action::<T>::Publish(
            TaskStatus::Stopped { exceptional, err: Arc::new(err) },
        ),
    ensures
        ({
            ||| run.len() >= 2 && run.last() is CleanedUp && (
            run[run.len() - 2] matches Observation::Broke { exceptional: marked, err: met, .. }
                && marked == exceptional && met == err)
            ||| run.len() >= 3 && run.last() == (Observation::<T>::Explained { err }) && !exceptional
                && run[run.len() - 2] is Aborted && run[run.len() - 3] is ShutDown
            ||| run.len() >= 2 && run.last() == (Observation::<T>::Explained { err }) && !exceptional
                && run[run.len() - 2] is Cancelled
        }),
{
    lemma_unroll(run);
    lemma_unroll(run.drop_last());
    if run.len() >= 2 {
        lemma_unroll(run.drop_last().drop_last());
    }
}

/// A task is `Panicked` exactly if it panicked or could not recover, and then the loop ends in that
/// very panic, or with that very error.
pub proof fn law_why_panicked<T>(run: Seq<Observation<T>>)
    requires
        possible(run),
        run.len() > 0,
    ensures
        last_action(run) == Action::<T>::Publish(TaskStatus::Panicked) <==> run.last() is Panicked
            || run.last() is RecoveryFailed,
        last_action(run) matches Action::End(Ending::Unwind(error)) ==> run.len() >= 2 && run[run.len()
            - 2] == (Observation::<T>::Panicked { error }),
        last_action(run) matches Action::End(Ending::RecoveryFailed(err)) ==> run.len() >= 2
            && run[run.len() - 2] == (Observation::<T>::RecoveryFailed { err }),
{
    lemma_unroll(run);
    lemma_unroll(run.drop_last());
}

/// Only a task that met an unrecoverable error, or that was told to shut down, cleans up; the
/// latter once it is published that it has stopped.
pub proof fn law_why_cleaned_up<T>(run: Seq<Observation<T>>, task: T)
    requires
        possible(run),
        run.len() > 0,
        last_action(run) == Action::<T>::CleanUp(task),
    ensures
        ({
            ||| run.last() matches Observation::Broke { task: broken, .. } && broken == task
            ||| statuses(run).last() is Stopped && run.len() >= 4 && run[run.len() - 4] == (
            Observation::ShutDown { task })
        }),
{
    lemma_unroll(run);
    lemma_unroll(run.drop_last());
    if run.len() >= 2 {
        lemma_unroll(run.drop_last().drop_last());
    }
    if run.len() >= 3 {
        lemma_unroll(run.drop_last().drop_last().drop_last());
    }
    lemma_statuses_fit(run.drop_last());
}

/// A running task that falls recoverably is published as `Recovering` with its error. Somebody
/// watching, it is asked to recover, pauses for as long as it says, and is spawned again with the
/// signal that it fell with; the restart is counted, and it is published that the task runs.
pub proof fn law_recoverable_fall<T>(
    supervisor: Supervisor<T>,
    task: T,
    shutdown: ShutdownSignal,
    err: eyre::Report,
    links: usize,
    recovered: T,
)
    requires
        supervisor.phase is Pushing,
    ensures
        ({
            let fell = Observation::Fell { task, shutdown, err, links };
            let seen = Observation::Published { watched: true };
            let back = Observation::Recovered { task: recovered };
            let faltering = supervisor.next(fell);
            let recovering = faltering.next(seen);
            let resting = recovering.next(back);
            let launching = resting.next(Observation::Slept);
            &&& supervisor.phase.awaits(fell)
            &&& supervisor.next_action(fell) == Action::<T>::Publish(
                TaskStatus::Recovering(Arc::new(err)),
            )
            &&& faltering.phase.awaits(seen)
            &&& faltering.next_action(seen) == Action::<T>::Recover(task)
            &&& recovering.phase.awaits(back)
            &&& recovering.next_action(back) == Action::<T>::Sleep
            &&& resting.phase == (Phase::Resting { task: recovered, shutdown })
            &&& resting.phase.awaits(Observation::Slept)
            &&& resting.next_action(Observation::Slept) == (Action::<T>::Respawn {
                task: recovered,
                shutdown,
                restarts: launching.restarts,
            })
            &&& supervisor.restarts < usize::MAX ==> launching.restarts == supervisor.restarts + 1
            &&& launching.phase.awaits(Observation::Spawned)
            &&& launching.next_action(Observation::Spawned) == Action::<T>::Publish(
                TaskStatus::Running,
            )
        }),
{
}

/// A running task that falls unrecoverably cleans up, however that goes; then it is published as
/// `Stopped` with its error and its mark, and the loop is over, whoever watches.
pub proof fn law_unrecoverable_fall<T>(
    supervisor: Supervisor<T>,
    task: T,
    exceptional: bool,
    err: eyre::Report,
    links: usize,
    cleanup: Result<(), eyre::Report>,
    watched: bool,
)
    requires
        supervisor.phase is Pushing,
    ensures
        ({
            let broke = Observation::Broke { task, exceptional, err, links };
            let clean = Observation::CleanedUp(cleanup);
            let seen = Observation::Published { watched };
            let cleaning = supervisor.next(broke);
            let leaving = cleaning.next(clean);
            &&& supervisor.phase.awaits(broke)
            &&& supervisor.next_action(broke) == Action::<T>::CleanUp(task)
            &&& cleaning.phase.awaits(clean)
            &&& cleaning.next_action(clean) == Action::<T>::Publish(
                TaskStatus::Stopped { exceptional, err: Arc::new(err) },
            )
            &&& leaving.phase.awaits(seen)
            &&& leaving.next_action(seen) == Action::<T>::End(Ending::Done)
            &&& leaving.next(seen).phase is Ended
        }),
{
}

/// A running task that shuts down on request is aborted and published as `Stopped`,
/// unexceptionally, with a report that reads `Shutdown`. In that state it cleans up, however that
/// goes and whoever watches, and the loop is over.
pub proof fn law_requested_shutdown<T>(
    supervisor: Supervisor<T>,
    task: T,
    explained: Observation<T>,
    watched: bool,
    cleanup: Result<(), eyre::Report>,
)
    requires
        supervisor.phase is Pushing,
        observed(Event::<T>::Explained(Grounds::Shutdown), explained),
    ensures
        ({
            let told = Observation::ShutDown { task };
            let seen = Observation::Published { watched };
            let clean = Observation::CleanedUp(cleanup);
            let aborting = supervisor.next(told);
            let explaining = aborting.next(Observation::Aborted);
            let stopping = explaining.next(explained);
            let retiring = stopping.next(seen);
            &&& supervisor.phase.awaits(told)
            &&& supervisor.next_action(told) == Action::<T>::Abort
            &&& aborting.phase.awaits(Observation::Aborted)
            &&& aborting.next_action(Observation::Aborted) == Action::<T>::Explain(
                Grounds::Shutdown,
            )
            &&& explaining.phase.awaits_event(Event::Explained(Grounds::Shutdown))
            &&& explaining.phase.awaits(explained)
            &&& explained matches Observation::Explained { err } && says(&err, "Shutdown"@)
                && explaining.next_action(explained) == Action::<T>::Publish(
                TaskStatus::Stopped { exceptional: false, err: Arc::new(err) },
            )
            &&& stopping.phase.awaits(seen)
            &&& stopping.next_action(seen) == Action::<T>::CleanUp(task)
            &&& retiring.phase.awaits(clean)
            &&& retiring.next_action(clean) == Action::<T>::End(Ending::Done)
            &&& retiring.next(clean).phase is Ended
        }),
{
}

/// A cancelled task is published as `Stopped`, unexceptionally, with a report that begins with the
/// error that says so, and the loop is over, whoever watches. It does not clean up.
pub proof fn law_cancellation<T>(
    supervisor: Supervisor<T>,
    error: JoinError,
    explained: Observation<T>,
    watched: bool,
)
    requires
        supervisor.phase is Pushing,
        observed(Event::<T>::Explained(Grounds::Cancellation(error)), explained),
    ensures
        ({
            let cancelled = Observation::Cancelled { error };
            let seen = Observation::Published { watched };
            let explaining = supervisor.next(cancelled);
            let leaving = explaining.next(explained);
            &&& supervisor.phase.awaits(cancelled)
            &&& supervisor.next_action(cancelled) == Action::<T>::Explain(
                Grounds::Cancellation(error),
            )
            &&& explaining.phase.awaits_event(Event::Explained(Grounds::Cancellation(error)))
            &&& explaining.phase.awaits(explained)
            &&& explained matches Observation::Explained { err } && begins_with(&err, &error)
                && explaining.next_action(explained) == Action::<T>::Publish(
                TaskStatus::Stopped { exceptional: false, err: Arc::new(err) },
            )
            &&& leaving.phase.awaits(seen)
            &&& leaving.next_action(seen) == Action::<T>::End(Ending::Done)
            &&& leaving.next(seen).phase is Ended
        }),
{
}

/// A task that panics is published as `Panicked`, and the loop ends in its panic, whoever watches.
pub proof fn law_panic<T>(supervisor: Supervisor<T>, error: JoinError, watched: bool)
    requires
        supervisor.phase is Pushing,
    ensures
        ({
            let panicked = Observation::Panicked { error };
            let seen = Observation::Published { watched };
            let leaving = supervisor.next(panicked);
            &&& supervisor.phase.awaits(panicked)
            &&& supervisor.next_action(panicked) == Action::<T>::Publish(TaskStatus::Panicked)
            &&& leaving.phase.awaits(seen)
            &&& leaving.next_action(seen) == Action::<T>::End(Ending::Unwind(error))
            &&& leaving.next(seen).phase is Ended
        }),
{
}

/// A task that cannot recover is published as `Panicked`, and the loop ends with its error, whoever
/// watches.
pub proof fn law_failed_recovery<T>(supervisor: Supervisor<T>, err: eyre::Report, watched: bool)
    requires
        supervisor.phase is Recovering,
    ensures
        ({
            let failed = Observation::RecoveryFailed { err };
            let seen = Observation::Published { watched };
            let leaving = supervisor.next(failed);
            &&& supervisor.phase.awaits(failed)
            &&& supervisor.next_action(failed) == Action::<T>::Publish(TaskStatus::Panicked)
            &&& leaving.phase.awaits(seen)
            &&& leaving.next_action(seen) == Action::<T>::End(Ending::RecoveryFailed(err))
            &&& leaving.next(seen).phase is Ended
        }),
{
}

/// A spawned task is joined, whoever watches it run.
pub proof fn law_spawned_is_joined<T>(supervisor: Supervisor<T>, watched: bool)
    requires
        supervisor.phase is Announcing,
    ensures
        ({
            let seen = Observation::Published { watched };
            &&& supervisor.phase.awaits(seen)
            &&& supervisor.next_action(seen) == Action::<T>::Join
            &&& supervisor.next(seen).phase is Pushing
        }),
{
}

/// Nobody there to see it recover, a task is not pushed on.
pub proof fn law_unwatched<T>(supervisor: Supervisor<T>)
    requires
        supervisor.phase is Faltering,
    ensures
        ({
            let unseen = Observation::Published { watched: false };
            &&& supervisor.phase.awaits(unseen)
            &&& supervisor.next_action(unseen) == Action::<T>::End(Ending::Done)
            &&& supervisor.next(unseen).phase is Ended
        }),
{
}

/// A supervisor awaits exactly what comes of the action it asked for, from the first spawn on;
/// what is observed of an awaited event is awaited too; and the loop is left exactly when the
/// supervisor says so.
pub proof fn law_actions_are_answered<T>(
    run: Seq<Observation<T>>,
    event: Event<T>,
    observation: Observation<T>,
)
    requires
        possible(run),
    ensures
        run.len() == 0 ==> (after(run).phase.awaits_event(event) <==> event is Spawned),
        run.len() > 0 ==> (after(run).phase.awaits_event(event) <==> answers(
            event,
            last_action(run),
        )),
        run.len() > 0 ==> (after(run).phase is Ended <==> last_action(run) is End),
        after(run).phase.awaits_event(event) && observed(event, observation) ==> possible(
            run.push(observation),
        ),
{
    lemma_unroll(run);
    assert(run.push(observation).drop_last() =~= run);
}

/// Every error along the chain of a fall is noted, in order and counted from one: at `DEBUG` where
/// the fall is recoverable, at `ERROR` where it is exceptional, and at `TRACE` otherwise. The notes
/// name the errors by their places along the chain of the fall's own error.
pub proof fn law_errors_are_noted<T>(
    supervisor: Supervisor<T>,
    observation: Observation<T>,
    turn: Turn<T>,
    i: int,
)
    requires
        supervisor.phase is Pushing,
        supervisor.makes(observation, turn),
    ensures
        match observation {
            Observation::Fell { err, links, .. } => {
                &&& turn.fault() == Some(err)
                &&& turn.notes@.len() == links
                &&& 0 <= i < links ==> {
                    let note = turn.notes@[i];
                    &&& note.level is Debug
                    &&& note.exceptional is None
                    &&& note.error == Some(i as usize)
                    &&& note.text@ == label((i + 1) as nat, links as nat)
                }
            },
            Observation::Broke { exceptional, err, links, .. } => {
                &&& turn.fault() == Some(err)
                &&& turn.notes@.len() == links + 1
                &&& 0 <= i < links ==> {
                    let note = turn.notes@[i];
                    &&& exceptional ==> note.level is Error
                    &&& !exceptional ==> note.level is Trace
                    &&& note.exceptional == Some(exceptional)
                    &&& note.error == Some(i as usize)
                    &&& note.text@ == label((i + 1) as nat, links as nat)
                }
            },
            _ => true,
        },
{
    let views = views(turn.notes@);
    assert(views.len() == turn.notes@.len());
    if 0 <= i < views.len() {
        assert(views[i] == turn.notes@[i]@);
    }
}

} // verus!
