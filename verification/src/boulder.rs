//! The task that is pushed.

use tokio::task::JoinHandle;
use vstd::prelude::*;
use vstd::string::to_string_from_display_ensures;

use crate::fall::{Fall, ShutdownSignal};

verus! {

/// A looping, fallible task
pub trait Boulder: std::fmt::Display + Sized {
    /// Defaults to 15 seconds. Can be overridden with arbitrary behavior
    fn restart_after_ms(&self) -> (ms: u64)
        default_ensures
            ms == 15_000,
    {
        15_000
    }

    /// A short description of the task, defaults to Display impl
    fn task_description(&self) -> (description: String)
        default_ensures
            to_string_from_display_ensures(self, description),
    {
        self.to_string()
    }

    /// Perform the task
    fn spawn(self, shutdown: ShutdownSignal) -> JoinHandle<Fall<Self>> where
        Self: 'static + Send + Sync + Sized;
}

} // verus!
