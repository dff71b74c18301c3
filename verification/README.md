# sisyphus-tasks

Keeps tasks that should run forever running.

A `Boulder` is a looping, fallible task. When it falls, it says itself whether it can go on, and a
`Supervisor` decides what becomes of it:

- a recoverable error is published, the task recovers, pauses, and is spawned again with the same
  channels;
- an unrecoverable error, or a shutdown on request, has the task clean up and stop for good;
- a panic is published and passed on.

The supervisor is a verified state machine. It decides and does nothing itself: each of its turns
names the notes for the log and the next action, and the driver answers with the event that came of
it. `src/lifecycle.rs` states what holds of every run.

- `src/boulder.rs`, `src/fall.rs`: tasks, and how they end their runs
- `src/supervisor.rs`: the decisions
- `src/lifecycle.rs`: the laws
- `src/status.rs`, `src/trace.rs`, `src/text.rs`: what observers see, and what the log says
- `src/handle.rs`: the owner's hold on a running task
- `src/outside.rs`: what is taken on trust from `eyre` and `tokio`
- `app/`: the driver, which runs supervisors on tokio and writes their notes with `tracing`
