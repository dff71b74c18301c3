//! What comes of each event: what every call of a supervisor's step gives, from the fall of a task
//! to the last turn.
//!
//! The laws here speak of the turns that calls give, one after the other, and of nothing in
//! between.

use std::sync::Arc;
use tokio::task::JoinError;
use vstd::prelude::*;
use vstd::string::to_string_from_display_ensures;

use crate::boulder::Boulder;
use crate::fall::{Fall, ShutdownSignal};
use crate::outside::{begins_with, chain_counts, chain_reads, count_chain, read_chain};
use crate::status::TaskStatus;
use crate::supervisor::{
    observe, observed, Action, Ending, Event, Grounds, Observation, Phase, Supervisor, Turn,
};
use crate::text::decimal;
use crate::trace::{views, Level, Note, Scope};

verus! {

/// Whether `notes` is one line that is not about an error.
pub open spec fn is_line(notes: Seq<Note>, level: Level, scope: Scope, text: Seq<char>) -> bool {
    &&& notes.len() == 1
    &&& notes[0].level == level
    &&& notes[0].scope == scope
    &&& notes[0].text@ == text
    &&& notes[0].error is None
    &&& notes[0].exceptional is None
}

/// Whether the line at `i` of `notes` is the one on the error at that place of a chain of `links`.
pub open spec fn is_error_line(
    notes: Seq<Note>,
    i: int,
    links: usize,
    level: Level,
    scope: Scope,
    exceptional: Option<bool>,
) -> bool {
    &&& notes[i].level == level
    &&& notes[i].scope == scope
    &&& notes[i].text@ == "Error "@ + decimal((i + 1) as nat) + "/"@ + decimal(links as nat)
    &&& notes[i].error == Some(i as usize)
    &&& notes[i].exceptional == exceptional
}

proof fn lemma_views(notes: Seq<Note>)
    ensures
        views(notes).len() == notes.len(),
        forall|i: int| 0 <= i < notes.len() ==> #[trigger] views(notes)[i] == notes[i]@,
{
}

/// What was observed where a step gave `turn`.
proof fn lemma_step<T>(supervisor: Supervisor<T>, event: Event<T>, turn: Turn<T>) -> (observation:
    Observation<T>)
    requires
        call_ensures(Supervisor::<T>::step, (supervisor, event), turn),
    ensures
        observed(event, observation),
        supervisor.phase.awaits(observation),
        supervisor.makes(observation, turn),
        views(turn.notes@).len() == turn.notes@.len(),
        forall|i: int|
            0 <= i < turn.notes@.len() ==> #[trigger] views(turn.notes@)[i] == turn.notes@[i]@,
{
    lemma_views(turn.notes@);
    choose|observation: Observation<T>| #[trigger]
        observed(event, observation) && supervisor.phase.awaits(observation) && supervisor.makes(
            observation,
            turn,
        )
}

/// A task that is begun is `Starting`, and is spawned with its signal. Once spawned it is published
/// as `Running`, and whoever watches, it is joined. It has not restarted, and nothing is noted.
pub proof fn law_task_is_begun<T>(
    task: T,
    shutdown: ShutdownSignal,
    begun: (TaskStatus, Turn<T>),
    spawned: Turn<T>,
    watched: bool,
    pushed: Turn<T>,
)
    requires
        call_ensures(Supervisor::<T>::start, (task, shutdown), begun),
    ensures
        begun.0 is Starting,
        begun.1.action == (Action::Spawn { task, shutdown }),
        begun.1.notes@.len() == 0,
        begun.1.supervisor.phase is Launching,
        begun.1.supervisor.restarts == 0,
        call_ensures(Supervisor::<T>::step, (begun.1.supervisor, Event::Spawned), spawned) ==> {
            &&& spawned.action == Action::<T>::Publish(TaskStatus::Running)
            &&& spawned.notes@.len() == 0
            &&& spawned.supervisor.phase is Announcing
            &&& spawned.supervisor.restarts == 0
        },
        call_ensures(Supervisor::<T>::step, (begun.1.supervisor, Event::Spawned), spawned)
            && call_ensures(
            Supervisor::<T>::step,
            (spawned.supervisor, Event::Published { watched }),
            pushed,
        ) ==> {
            &&& pushed.action == Action::<T>::Join
            &&& pushed.notes@.len() == 0
            &&& pushed.supervisor.phase is Pushing
            &&& pushed.supervisor.restarts == 0
        },
{
    if call_ensures(Supervisor::<T>::step, (begun.1.supervisor, Event::Spawned), spawned) {
        lemma_step(begun.1.supervisor, Event::Spawned, spawned);
        let seen = Event::Published { watched };
        if call_ensures(Supervisor::<T>::step, (spawned.supervisor, seen), pushed) {
            lemma_step(spawned.supervisor, seen, pushed);
        }
    }
}

/// A recoverable fall, however many causes its error has, is published as `Recovering` with that
/// very error, and the task and its signal are kept. Each error along the chain is noted at
/// `DEBUG`, in order.
pub proof fn law_recoverable_fall_is_published<T>(
    supervisor: Supervisor<T>,
    task: T,
    err: eyre::Report,
    shutdown: ShutdownSignal,
    turn: Turn<T>,
)
    requires
        supervisor.phase is Pushing,
        call_ensures(
            Supervisor::<T>::step,
            (supervisor, Event::Joined(Ok(Fall::Recoverable { task, err, shutdown }))),
            turn,
        ),
    ensures
        turn.action == Action::<T>::Publish(TaskStatus::Recovering(Arc::new(err))),
        turn.supervisor.phase == (Phase::Faltering { task, shutdown }),
        turn.supervisor.restarts == supervisor.restarts,
        turn.notes@.len() >= 1,
        turn.notes@.len() <= usize::MAX,
        chain_counts(&err, turn.notes@.len() as usize),
        forall|i: int|
            #![trigger turn.notes@[i]]
            0 <= i < turn.notes@.len() ==> is_error_line(
                turn.notes@,
                i,
                turn.notes@.len() as usize,
                Level::Debug,
                Scope::Recoverable,
                None,
            ),
{
    let event = Event::Joined(Ok(Fall::Recoverable { task, err, shutdown }));
    lemma_step(supervisor, event, turn);
    assert forall|i: int|
        #![trigger turn.notes@[i]]
        0 <= i < turn.notes@.len() implies is_error_line(
        turn.notes@,
        i,
        turn.notes@.len() as usize,
        Level::Debug,
        Scope::Recoverable,
        None,
    ) by {
        assert(views(turn.notes@)[i] == turn.notes@[i]@);
    }
}

/// A task whose fall was seen is asked to recover.
pub proof fn law_fallen_task_recovers<T>(
    supervisor: Supervisor<T>,
    task: T,
    shutdown: ShutdownSignal,
    turn: Turn<T>,
)
    requires
        supervisor.phase == (Phase::Faltering { task, shutdown }),
        call_ensures(
            Supervisor::<T>::step,
            (supervisor, Event::Published { watched: true }),
            turn,
        ),
    ensures
        turn.action == Action::<T>::Recover(task),
        is_line(turn.notes@, Level::Warn, Scope::Recoverable, "Task Recovering..."@),
        turn.supervisor.phase == (Phase::<T>::Recovering { shutdown }),
        turn.supervisor.restarts == supervisor.restarts,
{
    lemma_step(supervisor, Event::Published { watched: true }, turn);
    assert(views(turn.notes@).len() == 1);
    assert(views(turn.notes@)[0] == turn.notes@[0]@);
}

/// A task that has recovered pauses, for as long as it says itself, and is not counted as restarted
/// yet.
pub proof fn law_recovered_task_pauses<T: Boulder>(
    supervisor: Supervisor<T>,
    shutdown: ShutdownSignal,
    recovered: T,
    turn: Turn<T>,
    pause_ms: Option<u64>,
)
    requires
        supervisor.phase == (Phase::<T>::Recovering { shutdown }),
        call_ensures(
            Supervisor::<T>::step,
            (supervisor, Event::Recovered(Ok(recovered))),
            turn,
        ),
        call_ensures(Supervisor::<T>::pause_ms, (&turn.supervisor,), pause_ms),
    ensures
        turn.action == Action::<T>::Sleep,
        is_line(turn.notes@, Level::Warn, Scope::Recoverable, "Task Restarting ↺"@),
        turn.supervisor.phase == (Phase::Resting { task: recovered, shutdown }),
        turn.supervisor.restarts == supervisor.restarts,
        pause_ms matches Some(ms) && call_ensures(T::restart_after_ms, (&recovered,), ms),
{
    lemma_step(supervisor, Event::Recovered(Ok(recovered)), turn);
    assert(views(turn.notes@).len() == 1);
    assert(views(turn.notes@)[0] == turn.notes@[0]@);
}

/// A task that has paused is spawned again, as it is and with its own signal, and is counted once
/// more. Once spawned it is published as `Running`, and whoever watches, it is joined.
pub proof fn law_rested_task_is_spawned_again<T>(
    supervisor: Supervisor<T>,
    task: T,
    shutdown: ShutdownSignal,
    respawned: Turn<T>,
    announced: Turn<T>,
    watched: bool,
    pushed: Turn<T>,
)
    requires
        supervisor.phase == (Phase::Resting { task, shutdown }),
        call_ensures(Supervisor::<T>::step, (supervisor, Event::Slept), respawned),
    ensures
        respawned.action == (Action::Respawn {
            task,
            shutdown,
            restarts: respawned.supervisor.restarts,
        }),
        respawned.notes@.len() == 0,
        respawned.supervisor.phase is Launching,
        supervisor.restarts < usize::MAX ==> respawned.supervisor.restarts == supervisor.restarts
            + 1,
        supervisor.restarts == usize::MAX ==> respawned.supervisor.restarts == 0,
        call_ensures(Supervisor::<T>::step, (respawned.supervisor, Event::Spawned), announced) ==> {
            &&& announced.action == Action::<T>::Publish(TaskStatus::Running)
            &&& announced.notes@.len() == 0
            &&& announced.supervisor.phase is Announcing
            &&& announced.supervisor.restarts == respawned.supervisor.restarts
        },
        call_ensures(Supervisor::<T>::step, (respawned.supervisor, Event::Spawned), announced)
            && call_ensures(
            Supervisor::<T>::step,
            (announced.supervisor, Event::Published { watched }),
            pushed,
        ) ==> {
            &&& pushed.action == Action::<T>::Join
            &&& pushed.notes@.len() == 0
            &&& pushed.supervisor.phase is Pushing
            &&& pushed.supervisor.restarts == respawned.supervisor.restarts
        },
{
    lemma_step(supervisor, Event::Slept, respawned);
    if call_ensures(Supervisor::<T>::step, (respawned.supervisor, Event::Spawned), announced) {
        lemma_step(respawned.supervisor, Event::Spawned, announced);
        let seen = Event::Published { watched };
        if call_ensures(Supervisor::<T>::step, (announced.supervisor, seen), pushed) {
            lemma_step(announced.supervisor, seen, pushed);
        }
    }
}

/// Where nobody sees a task recover, it is not asked to: the loop is over, and nothing is noted.
pub proof fn law_unseen_fall_ends_the_loop<T>(supervisor: Supervisor<T>, ended: Turn<T>)
    requires
        supervisor.phase is Faltering,
        call_ensures(
            Supervisor::<T>::step,
            (supervisor, Event::Published { watched: false }),
            ended,
        ),
    ensures
        ended.action == Action::<T>::End(Ending::Done),
        ended.notes@.len() == 0,
        ended.supervisor.phase is Ended,
        ended.supervisor.restarts == supervisor.restarts,
{
    lemma_step(supervisor, Event::Published { watched: false }, ended);
}

/// A task that cannot recover is published as `Panicked`, and the loop ends with the very error of
/// its recovery, whoever watches.
pub proof fn law_collapse_is_published<T>(
    supervisor: Supervisor<T>,
    err: eyre::Report,
    failed: Turn<T>,
    watched: bool,
    ended: Turn<T>,
)
    requires
        supervisor.phase is Recovering,
        call_ensures(Supervisor::<T>::step, (supervisor, Event::Recovered(Err(err))), failed),
    ensures
        failed.action == Action::<T>::Publish(TaskStatus::Panicked),
        failed.notes@.len() == 0,
        failed.supervisor.restarts == supervisor.restarts,
        call_requires(Supervisor::<T>::step, (failed.supervisor, Event::Published { watched })),
        call_ensures(
            Supervisor::<T>::step,
            (failed.supervisor, Event::Published { watched }),
            ended,
        ) ==> {
            &&& ended.action == Action::<T>::End(Ending::RecoveryFailed(err))
            &&& ended.notes@.len() == 0
            &&& ended.supervisor.phase is Ended
            &&& ended.supervisor.restarts == supervisor.restarts
        },
{
    lemma_step(supervisor, Event::Recovered(Err(err)), failed);
    let seen = Event::Published { watched };
    if call_ensures(Supervisor::<T>::step, (failed.supervisor, seen), ended) {
        lemma_step(failed.supervisor, seen, ended);
    }
}

/// An unrecoverable fall, exceptional or not and however many causes its error has, has the task
/// clean up. However that goes, the task is published as `Stopped` with that very error and that
/// very mark, and the loop is over, whoever watches. Each error along the chain is noted, in order:
/// at `ERROR` where the fall is exceptional, and at `TRACE` otherwise.
pub proof fn law_unrecoverable_fall_stops_the_task<T>(
    supervisor: Supervisor<T>,
    exceptional: bool,
    err: eyre::Report,
    task: T,
    broke: Turn<T>,
    cleanup: Result<(), eyre::Report>,
    stopped: Turn<T>,
    watched: bool,
    ended: Turn<T>,
)
    requires
        supervisor.phase is Pushing,
        call_ensures(
            Supervisor::<T>::step,
            (supervisor, Event::Joined(Ok(Fall::Unrecoverable { exceptional, err, task }))),
            broke,
        ),
    ensures
        broke.action == Action::<T>::CleanUp(task),
        broke.supervisor.restarts == supervisor.restarts,
        broke.notes@.len() >= 2,
        broke.notes@.len() - 1 <= usize::MAX,
        chain_counts(&err, (broke.notes@.len() - 1) as usize),
        forall|i: int|
            #![trigger broke.notes@[i]]
            0 <= i < broke.notes@.len() - 1 ==> is_error_line(
                broke.notes@,
                i,
                (broke.notes@.len() - 1) as usize,
                if exceptional {
                    Level::Error
                } else {
                    Level::Trace
                },
                Scope::Unrecoverable,
                Some(exceptional),
            ),
        is_line(
            seq![broke.notes@.last()],
            Level::Warn,
            Scope::Unrecoverable,
            "Task Cleaning up.."@,
        ),
        call_requires(Supervisor::<T>::step, (broke.supervisor, Event::CleanedUp(cleanup))),
        call_ensures(
            Supervisor::<T>::step,
            (broke.supervisor, Event::CleanedUp(cleanup)),
            stopped,
        ) ==> {
            &&& stopped.action == Action::<T>::Publish(
                TaskStatus::Stopped { exceptional, err: Arc::new(err) },
            )
            &&& stopped.notes@.len() == 0
            &&& stopped.supervisor.restarts == supervisor.restarts
            &&& call_requires(
                Supervisor::<T>::step,
                (stopped.supervisor, Event::Published { watched }),
            )
        },
        call_ensures(
            Supervisor::<T>::step,
            (broke.supervisor, Event::CleanedUp(cleanup)),
            stopped,
        ) && call_ensures(
            Supervisor::<T>::step,
            (stopped.supervisor, Event::Published { watched }),
            ended,
        ) ==> {
            &&& ended.action == Action::<T>::End(Ending::Done)
            &&& is_line(ended.notes@, Level::Warn, Scope::Unrecoverable, "Task Shutting down Ⓧ"@)
            &&& ended.supervisor.phase is Ended
            &&& ended.supervisor.restarts == supervisor.restarts
        },
{
    let event = Event::Joined(Ok(Fall::Unrecoverable { exceptional, err, task }));
    lemma_step(supervisor, event, broke);
    assert forall|i: int|
        #![trigger broke.notes@[i]]
        0 <= i < broke.notes@.len() - 1 implies is_error_line(
        broke.notes@,
        i,
        (broke.notes@.len() - 1) as usize,
        if exceptional {
            Level::Error
        } else {
            Level::Trace
        },
        Scope::Unrecoverable,
        Some(exceptional),
    ) by {
        assert(views(broke.notes@)[i] == broke.notes@[i]@);
    }
    assert(views(broke.notes@).last() == broke.notes@.last()@);
    let clean = Event::CleanedUp(cleanup);
    if call_ensures(Supervisor::<T>::step, (broke.supervisor, clean), stopped) {
        lemma_step(broke.supervisor, clean, stopped);
        let seen = Event::Published { watched };
        if call_ensures(Supervisor::<T>::step, (stopped.supervisor, seen), ended) {
            lemma_step(stopped.supervisor, seen, ended);
            assert(views(ended.notes@).len() == 1);
            assert(views(ended.notes@)[0] == ended.notes@[0]@);
        }
    }
}

/// A task that shuts down as it was told to is aborted, and the stop is to be explained as a
/// shutdown.
pub proof fn law_requested_shutdown_aborts_the_task<T>(
    supervisor: Supervisor<T>,
    task: T,
    told: Turn<T>,
    aborted: Turn<T>,
)
    requires
        supervisor.phase is Pushing,
        call_ensures(
            Supervisor::<T>::step,
            (supervisor, Event::Joined(Ok(Fall::Shutdown { task }))),
            told,
        ),
    ensures
        told.action == Action::<T>::Abort,
        told.notes@.len() == 0,
        told.supervisor.restarts == supervisor.restarts,
        call_requires(Supervisor::<T>::step, (told.supervisor, Event::Aborted)),
        call_ensures(Supervisor::<T>::step, (told.supervisor, Event::Aborted), aborted) ==> {
            &&& aborted.action == Action::<T>::Explain(Grounds::Shutdown)
            &&& is_line(aborted.notes@, Level::Trace, Scope::Shutdown, "Handle aborted"@)
            &&& aborted.supervisor.phase == (Phase::Explaining { told: Some(task) })
            &&& aborted.supervisor.restarts == supervisor.restarts
        },
{
    lemma_step(supervisor, Event::Joined(Ok(Fall::Shutdown { task })), told);
    if call_ensures(Supervisor::<T>::step, (told.supervisor, Event::Aborted), aborted) {
        lemma_step(told.supervisor, Event::Aborted, aborted);
        assert(views(aborted.notes@).len() == 1);
        assert(views(aborted.notes@)[0] == aborted.notes@[0]@);
    }
}

/// A stop that is explained as a shutdown is published as `Stopped`, unexceptionally, with a report
/// that is counted as one error and reads `Shutdown`. Whoever watches, the task cleans up, and
/// however that goes, the loop is over.
pub proof fn law_requested_shutdown_stops_the_task<T>(
    supervisor: Supervisor<T>,
    task: T,
    stopped: Turn<T>,
    watched: bool,
    cleaning: Turn<T>,
    cleanup: Result<(), eyre::Report>,
    ended: Turn<T>,
)
    requires
        supervisor.phase == (Phase::Explaining { told: Some(task) }),
        call_ensures(
            Supervisor::<T>::step,
            (supervisor, Event::Explained(Grounds::Shutdown)),
            stopped,
        ),
    ensures
        stopped.action matches Action::Publish(TaskStatus::Stopped { exceptional: false, err }) && (
        forall|links: usize| #[trigger]
            call_ensures(count_chain, (&*err,), links) ==> links == 1) && (forall|
            read: Option<String>,
        | #[trigger]
            call_ensures(read_chain, (&*err, 0usize), read) ==> read is Some && read->0@
                == "Shutdown"@),
        stopped.notes@.len() == 0,
        stopped.supervisor.restarts == supervisor.restarts,
        call_requires(Supervisor::<T>::step, (stopped.supervisor, Event::Published { watched })),
        call_ensures(
            Supervisor::<T>::step,
            (stopped.supervisor, Event::Published { watched }),
            cleaning,
        ) ==> {
            &&& cleaning.action == Action::<T>::CleanUp(task)
            &&& cleaning.notes@.len() == 0
            &&& cleaning.supervisor.restarts == supervisor.restarts
            &&& call_requires(
                Supervisor::<T>::step,
                (cleaning.supervisor, Event::CleanedUp(cleanup)),
            )
        },
        call_ensures(
            Supervisor::<T>::step,
            (stopped.supervisor, Event::Published { watched }),
            cleaning,
        ) && call_ensures(
            Supervisor::<T>::step,
            (cleaning.supervisor, Event::CleanedUp(cleanup)),
            ended,
        ) ==> {
            &&& ended.action == Action::<T>::End(Ending::Done)
            &&& is_line(ended.notes@, Level::Trace, Scope::Shutdown, "Cleanup ran"@)
            &&& ended.supervisor.phase is Ended
            &&& ended.supervisor.restarts == supervisor.restarts
        },
{
    lemma_step(supervisor, Event::Explained(Grounds::Shutdown), stopped);
    let seen = Event::Published { watched };
    if call_ensures(Supervisor::<T>::step, (stopped.supervisor, seen), cleaning) {
        lemma_step(stopped.supervisor, seen, cleaning);
        let clean = Event::CleanedUp(cleanup);
        if call_ensures(Supervisor::<T>::step, (cleaning.supervisor, clean), ended) {
            lemma_step(cleaning.supervisor, clean, ended);
            assert(views(ended.notes@).len() == 1);
            assert(views(ended.notes@)[0] == ended.notes@[0]@);
        }
    }
}

/// Whether a task that came to no result panicked or was cancelled is for its error to say. One
/// that panicked is published as `Panicked`, and whoever watches, the loop then ends in that very
/// panic. One that was cancelled is noted, and the stop is to be explained by its error.
pub proof fn law_lost_task_is_told_apart<T>(
    supervisor: Supervisor<T>,
    error: JoinError,
    lost: Turn<T>,
    watched: bool,
    ended: Turn<T>,
)
    requires
        supervisor.phase is Pushing,
        call_ensures(Supervisor::<T>::step, (supervisor, Event::Joined(Err(error))), lost),
    ensures
        lost.supervisor.restarts == supervisor.restarts,
        ({
            ||| {
                &&& call_ensures(JoinError::is_panic, (&error,), true)
                &&& lost.action == Action::<T>::Publish(TaskStatus::Panicked)
                &&& lost.notes@.len() == 0
                &&& call_requires(
                    Supervisor::<T>::step,
                    (lost.supervisor, Event::Published { watched }),
                )
                &&& call_ensures(
                    Supervisor::<T>::step,
                    (lost.supervisor, Event::Published { watched }),
                    ended,
                ) ==> {
                    &&& ended.action == Action::<T>::End(Ending::Unwind(error))
                    &&& is_line(ended.notes@, Level::Error, Scope::Task, "Internal task panicked"@)
                    &&& ended.supervisor.phase is Ended
                    &&& ended.supervisor.restarts == supervisor.restarts
                }
            }
            ||| {
                &&& call_ensures(JoinError::is_panic, (&error,), false)
                &&& lost.action == Action::<T>::Explain(Grounds::Cancellation(error))
                &&& is_line(lost.notes@, Level::Trace, Scope::Task, "Internal task cancelled"@)
                &&& lost.supervisor.phase == (Phase::<T>::Explaining { told: None })
            }
        }),
{
    lemma_step(supervisor, Event::Joined(Err(error)), lost);
    if lost.notes@.len() == 1 {
        assert(views(lost.notes@)[0] == lost.notes@[0]@);
    }
    let seen = Event::Published { watched };
    if call_ensures(Supervisor::<T>::step, (lost.supervisor, seen), ended) {
        lemma_step(lost.supervisor, seen, ended);
        if ended.notes@.len() == 1 {
            assert(views(ended.notes@)[0] == ended.notes@[0]@);
        }
    }
}

/// A stop that is explained by a cancellation is published as `Stopped`, unexceptionally, with a
/// report that begins with the error that says so; then the loop is over, whoever watches, and the
/// task does not clean up.
pub proof fn law_cancelled_task_is_stopped<T>(
    supervisor: Supervisor<T>,
    error: JoinError,
    stopped: Turn<T>,
    watched: bool,
    ended: Turn<T>,
)
    requires
        supervisor.phase == (Phase::<T>::Explaining { told: None }),
        call_ensures(
            Supervisor::<T>::step,
            (supervisor, Event::Explained(Grounds::Cancellation(error))),
            stopped,
        ),
    ensures
        stopped.action matches Action::Publish(TaskStatus::Stopped { exceptional: false, err })
            && begins_with(&*err, &error),
        stopped.notes@.len() == 0,
        stopped.supervisor.restarts == supervisor.restarts,
        call_requires(Supervisor::<T>::step, (stopped.supervisor, Event::Published { watched })),
        call_ensures(
            Supervisor::<T>::step,
            (stopped.supervisor, Event::Published { watched }),
            ended,
        ) ==> {
            &&& ended.action == Action::<T>::End(Ending::Done)
            &&& ended.notes@.len() == 0
            &&& ended.supervisor.phase is Ended
            &&& ended.supervisor.restarts == supervisor.restarts
        },
{
    lemma_step(supervisor, Event::Explained(Grounds::Cancellation(error)), stopped);
    let seen = Event::Published { watched };
    if call_ensures(Supervisor::<T>::step, (stopped.supervisor, seen), ended) {
        lemma_step(stopped.supervisor, seen, ended);
    }
}

/// A step counts a restart exactly when the pause before it is over, and exactly then the task is
/// spawned again, with the count as it then stands.
pub proof fn law_step_counts_restarts<T>(
    supervisor: Supervisor<T>,
    event: Event<T>,
    turn: Turn<T>,
)
    requires
        supervisor.phase.awaits_event(event),
        call_ensures(Supervisor::<T>::step, (supervisor, event), turn),
    ensures
        turn.action is Respawn <==> event is Slept,
        !(event is Slept) ==> turn.supervisor.restarts == supervisor.restarts,
        event is Slept && supervisor.restarts < usize::MAX ==> turn.supervisor.restarts
            == supervisor.restarts + 1,
        event is Slept && supervisor.restarts == usize::MAX ==> turn.supervisor.restarts == 0,
        turn.action matches Action::Respawn { restarts, .. } ==> restarts
            == turn.supervisor.restarts,
{
    lemma_step(supervisor, event, turn);
}

/// After a step, a supervisor expects exactly what can come of the action that the step asked for,
/// and what it expects it can take in.
pub proof fn law_step_expects_its_answer<T>(
    supervisor: Supervisor<T>,
    event: Event<T>,
    turn: Turn<T>,
    next: Event<T>,
    expected: bool,
)
    requires
        supervisor.phase.awaits_event(event),
        call_ensures(Supervisor::<T>::step, (supervisor, event), turn),
        call_ensures(Supervisor::<T>::expects, (&turn.supervisor, &next), expected),
    ensures
        expected == match turn.action {
            Action::Spawn { .. } => next is Spawned,
            Action::Respawn { .. } => next is Spawned,
            Action::Publish(_) => next is Published,
            Action::Join => next is Joined,
            Action::Recover(_) => next is Recovered,
            Action::Abort => next is Aborted,
            Action::CleanUp(_) => next is CleanedUp,
            Action::Sleep => next is Slept,
            Action::Explain(Grounds::Shutdown) => next == Event::<T>::Explained(Grounds::Shutdown),
            Action::Explain(Grounds::Cancellation(_)) => next matches Event::Explained(
                Grounds::Cancellation(_),
            ),
            Action::End(_) => false,
        },
        expected ==> call_requires(Supervisor::<T>::step, (turn.supervisor, next)),
{
    lemma_step(supervisor, event, turn);
}

/// Only a task that waits to be spawned again is asked how long to pause, and it is the one asked.
pub proof fn law_pause_is_the_tasks<T: Boulder>(
    supervisor: Supervisor<T>,
    pause_ms: Option<u64>,
)
    requires
        call_ensures(Supervisor::<T>::pause_ms, (&supervisor,), pause_ms),
    ensures
        pause_ms is Some <==> supervisor.phase is Resting,
        supervisor.phase matches Phase::Resting { task, .. } ==> call_ensures(
            T::restart_after_ms,
            (&task,),
            pause_ms->0,
        ),
{
}

/// A turn on a fall reports the very error of that fall, and each line on an error reads as the
/// error at that place along its chain.
pub proof fn law_notes_are_about_the_fall<T>(
    supervisor: Supervisor<T>,
    fall: Fall<T>,
    turn: Turn<T>,
    report: Option<&eyre::Report>,
    i: int,
    message: Option<String>,
)
    requires
        supervisor.phase is Pushing,
        call_ensures(Supervisor::<T>::step, (supervisor, Event::Joined(Ok(fall))), turn),
        call_ensures(Turn::<T>::report, (&turn,), report),
        0 <= i < turn.notes@.len(),
        call_ensures(Turn::<T>::error_message, (&turn, &turn.notes@[i]), message),
    ensures
        match fall {
            Fall::Recoverable { err, .. } => {
                &&& report == Some(&err)
                &&& match message {
                    Some(text) => chain_reads(&err, i as usize, Some(text@)),
                    None => chain_reads(&err, i as usize, None),
                }
                &&& i == 0 ==> message is Some
            },
            Fall::Unrecoverable { err, .. } => {
                &&& report == Some(&err)
                &&& i < turn.notes@.len() - 1 ==> match message {
                    Some(text) => chain_reads(&err, i as usize, Some(text@)),
                    None => chain_reads(&err, i as usize, None),
                }
                &&& i == 0 ==> message is Some
                &&& i == turn.notes@.len() - 1 ==> message is None
            },
            Fall::Shutdown { .. } => false,
        },
{
    lemma_step(supervisor, Event::Joined(Ok(fall)), turn);
    assert(views(turn.notes@)[i] == turn.notes@[i]@);
}

/// An event is observed as it is: what it carries is neither changed nor exchanged, and of a fall's
/// error only the errors along its chain are counted.
pub proof fn law_event_is_observed_as_it_is<T>(event: Event<T>, observation: Observation<T>)
    requires
        call_ensures(observe::<T>, (event,), observation),
    ensures
        match event {
            Event::Joined(Ok(Fall::Recoverable { task, err, shutdown })) => exists|links: usize|
                #[trigger] chain_counts(&err, links) && observation == (Observation::Fell {
                    task,
                    shutdown,
                    err,
                    links,
                }),
            Event::Joined(Ok(Fall::Unrecoverable { exceptional, err, task })) => exists|
                links: usize,
            | #[trigger]
                chain_counts(&err, links) && observation == (Observation::Broke {
                    task,
                    exceptional,
                    err,
                    links,
                }),
            Event::Joined(Ok(Fall::Shutdown { task })) => observation == (Observation::ShutDown {
                task,
            }),
            Event::Joined(Err(error)) => {
                ||| call_ensures(JoinError::is_panic, (&error,), true) && observation == (
                Observation::<T>::Panicked { error })
                ||| call_ensures(JoinError::is_panic, (&error,), false) && observation == (
                Observation::<T>::Cancelled { error })
            },
            Event::Recovered(Ok(task)) => observation == (Observation::Recovered { task }),
            Event::Recovered(Err(err)) => observation == (Observation::<T>::RecoveryFailed { err }),
            Event::Published { watched } => observation == (Observation::<T>::Published {
                watched,
            }),
            Event::CleanedUp(outcome) => observation == Observation::<T>::CleanedUp(outcome),
            Event::Spawned => observation is Spawned,
            Event::Aborted => observation is Aborted,
            Event::Slept => observation is Slept,
            Event::Explained(_) => observation is Explained,
        },
{
}

/// To observe an event and to decide on what was observed is to take a fall as a step takes it:
/// published with its error, cleaned up, or aborted, as the fall itself says.
pub proof fn law_decision_follows_the_fall<T>(
    supervisor: Supervisor<T>,
    fall: Fall<T>,
    observation: Observation<T>,
    turn: Turn<T>,
)
    requires
        supervisor.phase is Pushing,
        call_ensures(observe::<T>, (Event::Joined(Ok(fall)),), observation),
        call_ensures(Supervisor::<T>::decide, (supervisor, observation), turn),
    ensures
        turn.supervisor.restarts == supervisor.restarts,
        match fall {
            Fall::Recoverable { task, err, shutdown } => {
                &&& turn.action == Action::<T>::Publish(TaskStatus::Recovering(Arc::new(err)))
                &&& turn.supervisor.phase == (Phase::Faltering { task, shutdown })
            },
            Fall::Unrecoverable { exceptional, err, task } => {
                &&& turn.action == Action::<T>::CleanUp(task)
                &&& turn.supervisor.phase == (Phase::<T>::CleaningUp { exceptional, err })
            },
            Fall::Shutdown { task } => {
                &&& turn.action == Action::<T>::Abort
                &&& turn.supervisor.phase == (Phase::Aborting { task })
            },
        },
{
}

/// A supervisor that has begun expects its task to be spawned, and nothing else.
pub proof fn law_begun_expects_the_spawn<T>(
    task: T,
    shutdown: ShutdownSignal,
    begun: (TaskStatus, Turn<T>),
    next: Event<T>,
    expected: bool,
)
    requires
        call_ensures(Supervisor::<T>::start, (task, shutdown), begun),
        call_ensures(Supervisor::<T>::expects, (&begun.1.supervisor, &next), expected),
    ensures
        expected <==> next is Spawned,
        expected ==> call_requires(Supervisor::<T>::step, (begun.1.supervisor, next)),
{
}

/// What is observed of an event that a supervisor expects can be decided on.
pub proof fn law_expected_is_decided<T>(
    supervisor: Supervisor<T>,
    event: Event<T>,
    observation: Observation<T>,
)
    requires
        call_ensures(Supervisor::<T>::expects, (&supervisor, &event), true),
        call_ensures(observe::<T>, (event,), observation),
    ensures
        call_requires(Supervisor::<T>::decide, (supervisor, observation)),
{
}

/// The grounds of a shutdown are reported as one error that reads `Shutdown`; those of a
/// cancellation as the error that says so, rendered by its own `Display`.
pub proof fn law_grounds_are_reported(
    grounds: Grounds,
    report: eyre::Report,
    links: usize,
    first: Option<String>,
)
    requires
        call_ensures(Grounds::report, (grounds,), report),
        call_ensures(count_chain, (&report,), links),
        call_ensures(read_chain, (&report, 0usize), first),
    ensures
        match grounds {
            Grounds::Shutdown => links == 1 && first is Some && first->0@ == "Shutdown"@,
            Grounds::Cancellation(error) => exists|shown: String| #[trigger]
                to_string_from_display_ensures(&error, shown) && first is Some && first->0@
                    == shown@,
        },
{
}

} // verus!
