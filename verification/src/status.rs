//! What an observer sees of a task.

use std::sync::Arc;
use vstd::prelude::*;
use vstd::string::to_string_from_display_ensures;

verus! {

/// The current state of a Sisyphus task.
#[derive(Debug, Clone)]
pub enum TaskStatus {
    /// Task is starting
    Starting,
    /// Task is running
    Running,
    /// Task is waiting to resume running
    Recovering(Arc<eyre::Report>),
    /// Task is stopped, and will not resume
    Stopped {
        /// Whether the error is exceptional, or normal lifecycle
        exceptional: bool,
        /// The error that triggered the stop
        err: Arc<eyre::Report>,
    },
    /// Task has panicked
    Panicked,
}

impl TaskStatus {
    /// The error that the status carries, if it carries one.
    pub open spec fn report(self) -> Option<eyre::Report> {
        match self {
            TaskStatus::Recovering(err) => Some(*err),
            TaskStatus::Stopped { err, .. } => Some(*err),
            _ => None,
        }
    }

    /// The status as text, given the text of the error that it carries.
    pub open spec fn text(self, err_text: Seq<char>) -> Seq<char> {
        match self {
            TaskStatus::Starting => "Starting"@,
            TaskStatus::Running => "Running"@,
            TaskStatus::Recovering(_) => "Restarting:\n"@ + err_text,
            TaskStatus::Stopped { exceptional, .. } => "Stopped:\n"@ + (if exceptional {
                "exceptional\n"@
            } else {
                Seq::empty()
            }) + err_text,
            TaskStatus::Panicked => "Panicked"@,
        }
    }

    /// The status as text. The error that it carries is rendered by its own `Display`.
    pub fn to_string(&self) -> (text: String)
        ensures
            exists|err_text: String|
                (self.report() matches Some(report) ==> to_string_from_display_ensures(&report, err_text))
                && text@ == #[trigger] self.text(err_text@),
    {
        let err_text = match self {
            TaskStatus::Recovering(err) => (**err).to_string(),
            TaskStatus::Stopped { err, .. } => (**err).to_string(),
            _ => String::new(),
        };
        self.render(err_text.as_str())
    }

    /// The status as text, given the text of the error that it carries.
    pub fn render(&self, err_text: &str) -> (text: String)
        ensures
            text@ == self.text(err_text@),
    {
        match self {
            TaskStatus::Starting => "Starting".to_owned(),
            TaskStatus::Running => "Running".to_owned(),
            TaskStatus::Recovering(_) => "Restarting:\n".to_owned().concat(err_text),
            TaskStatus::Stopped { exceptional, .. } => {
                let flag = if *exceptional { "exceptional\n" } else { "" };
                proof {
                    reveal_strlit("");
                }
                "Stopped:\n".to_owned().concat(flag).concat(err_text)
            },
            TaskStatus::Panicked => "Panicked".to_owned(),
        }
    }
}

/// A status reads as its name. Where it carries an error, that is the name, the mark of an
/// exceptional one, and then the very text that was given for the error.
pub proof fn law_status_reads_as_its_name(status: TaskStatus, err_text: &str, text: String)
    requires
        call_ensures(TaskStatus::render, (&status, err_text), text),
    ensures
        match status {
            TaskStatus::Starting => text@ == "Starting"@,
            TaskStatus::Running => text@ == "Running"@,
            TaskStatus::Recovering(_) => text@ == "Restarting:\n"@ + err_text@,
            TaskStatus::Stopped { exceptional: true, .. } => text@ == "Stopped:\n"@
                + "exceptional\n"@ + err_text@,
            TaskStatus::Stopped { exceptional: false, .. } => text@ == "Stopped:\n"@ + err_text@,
            TaskStatus::Panicked => text@ == "Panicked"@,
        },
{
    assert("Stopped:\n"@ + Seq::<char>::empty() =~= "Stopped:\n"@);
}

/// What follows the name in a status that carries an error is what that very error displays as, in
/// full.
pub proof fn law_status_shows_its_error(status: TaskStatus, text: String)
    requires
        call_ensures(TaskStatus::to_string, (&status,), text),
    ensures
        match status {
            TaskStatus::Starting => text@ == "Starting"@,
            TaskStatus::Running => text@ == "Running"@,
            TaskStatus::Recovering(err) => exists|shown: String| #[trigger]
                to_string_from_display_ensures(&*err, shown) && text@ == "Restarting:\n"@ + shown@,
            TaskStatus::Stopped { exceptional: true, err } => exists|shown: String| #[trigger]
                to_string_from_display_ensures(&*err, shown) && text@ == "Stopped:\n"@
                    + "exceptional\n"@ + shown@,
            TaskStatus::Stopped { exceptional: false, err } => exists|shown: String| #[trigger]
                to_string_from_display_ensures(&*err, shown) && text@ == "Stopped:\n"@ + shown@,
            TaskStatus::Panicked => text@ == "Panicked"@,
        },
{
    let shown = choose|err_text: String|
        (status.report() matches Some(report) ==> to_string_from_display_ensures(&report, err_text))
            && text@ == #[trigger] status.text(err_text@);
    assert("Stopped:\n"@ + Seq::<char>::empty() =~= "Stopped:\n"@);
    if let Some(report) = status.report() {
        assert(to_string_from_display_ensures(&report, shown));
    }
}

} // verus!
