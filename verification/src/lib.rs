//! Keeps tasks that should run forever running.
//!
//! A [`Boulder`] is a looping, fallible task. It ends each run with a [`Fall`], which says whether
//! the task can go on. A [`Supervisor`] decides what becomes of it: whether it recovers, pauses and
//! is spawned again, or cleans up and stops, and what its observers see and its log says of that.
//! The owner of a running task holds a [`Sisyphus`].

pub mod boulder;
pub mod conduct;
pub mod fall;
pub mod handle;
pub mod lifecycle;
pub mod outside;
pub mod status;
pub mod supervisor;
pub mod text;
pub mod trace;

pub use boulder::Boulder;
pub use fall::{ErrExt, Fall, ShutdownSignal};
pub use handle::Sisyphus;
pub use outside::{count_chain, read_chain};
pub use status::TaskStatus;
pub use supervisor::{
    observe, Action, Departure, Ending, Event, Grounds, Observation, Phase, Supervisor, Turn,
};
pub use text::write_decimal;
pub use trace::{Level, Note, Scope};
