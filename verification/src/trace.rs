//! What a supervisor has to say in the log.

use vstd::prelude::*;

use crate::text::{decimal, write_decimal};

verus! {

/// How loud a note is.
#[derive(Debug, Clone, Copy, PartialEq, Eq, Structural)]
pub enum Level {
    Error,
    Warn,
    Debug,
    Trace,
}

/// What a note belongs to.
#[derive(Debug, Clone, Copy, PartialEq, Eq, Structural)]
pub enum Scope {
    /// The handling of a recoverable fall
    Recoverable,
    /// The handling of an unrecoverable fall
    Unrecoverable,
    /// The handling of a shutdown
    Shutdown,
    /// The task as a whole
    Task,
}

/// A line for the log.
#[derive(Debug)]
pub struct Note {
    /// How loud the note is
    pub level: Level,
    /// What the note belongs to
    pub scope: Scope,
    /// What the note says
    pub text: String,
    /// Which error the note is about: its place along the chain of the fall's error, counted from
    /// zero at the outermost one
    pub error: Option<usize>,
    /// Whether that error stops the task, and then whether it is exceptional
    pub exceptional: Option<bool>,
}

/// A note, with its text as a sequence of characters.
pub struct NoteView {
    pub level: Level,
    pub scope: Scope,
    pub text: Seq<char>,
    pub error: Option<usize>,
    pub exceptional: Option<bool>,
}

impl View for Note {
    type V = NoteView;

    open spec fn view(&self) -> NoteView {
        NoteView {
            level: self.level,
            scope: self.scope,
            text: self.text@,
            error: self.error,
            exceptional: self.exceptional,
        }
    }
}

/// The views of `notes`.
pub open spec fn views(notes: Seq<Note>) -> Seq<NoteView> {
    notes.map_values(|note: Note| note@)
}

/// The level for the errors of a fall: `exceptional` is `None` where the fall is recoverable.
pub open spec fn error_level(exceptional: Option<bool>) -> Level {
    match exceptional {
        None => Level::Debug,
        Some(true) => Level::Error,
        Some(false) => Level::Trace,
    }
}

/// The scope for the errors of a fall: `exceptional` is `None` where the fall is recoverable.
pub open spec fn error_scope(exceptional: Option<bool>) -> Scope {
    match exceptional {
        None => Scope::Recoverable,
        Some(_) => Scope::Unrecoverable,
    }
}

/// Names the error at place `index` of `total`.
pub open spec fn label(index: nat, total: nat) -> Seq<char> {
    "Error "@ + decimal(index) + "/"@ + decimal(total)
}

/// A note that is not about an error.
pub open spec fn remark(level: Level, scope: Scope, text: Seq<char>) -> NoteView {
    NoteView { level, scope, text, error: None, exceptional: None }
}

/// The notes on a chain of `links` errors: one for each, in order, counted from one.
pub open spec fn chain_notes(exceptional: Option<bool>, links: usize) -> Seq<NoteView> {
    Seq::new(
        links as nat,
        |i: int|
            NoteView {
                level: error_level(exceptional),
                scope: error_scope(exceptional),
                text: label((i + 1) as nat, links as nat),
                error: Some(i as usize),
                exceptional,
            },
    )
}

impl Note {
    /// A note that is not about an error.
    pub fn remark(level: Level, scope: Scope, text: &str) -> (note: Self)
        ensures
            note@ == remark(level, scope, text@),
    {
        Note { level, scope, text: text.to_owned(), error: None, exceptional: None }
    }

    /// The notes on a chain of `links` errors.
    pub fn on_chain(exceptional: Option<bool>, links: usize) -> (notes: Vec<Self>)
        ensures
            views(notes@) == chain_notes(exceptional, links),
    {
        let (level, scope) = match exceptional {
            None => (Level::Debug, Scope::Recoverable),
            Some(true) => (Level::Error, Scope::Unrecoverable),
            Some(false) => (Level::Trace, Scope::Unrecoverable),
        };
        let mut notes: Vec<Note> = Vec::new();
        let mut index: usize = 0;
        while index < links
            invariant
                index <= links,
                level == error_level(exceptional),
                scope == error_scope(exceptional),
                views(notes@) == chain_notes(exceptional, links).take(index as int),
            decreases links - index,
        {
            let ghost before = notes@;
            let error = Some(index);
            index = index + 1;
            let text = "Error ".to_owned().concat(write_decimal(index).as_str()).concat("/").concat(
                write_decimal(links).as_str(),
            );
            notes.push(Note { level, scope, text, error, exceptional });
            proof {
                let all = chain_notes(exceptional, links);
                assert(views(notes@) =~= views(before).push(notes@.last()@));
                assert(notes@.last()@ == all[index - 1]);
                assert(all.take(index as int) =~= all.take(index - 1).push(all[index - 1]));
            }
        }
        assert(views(notes@) =~= chain_notes(exceptional, links));
        notes
    }
}

/// A remark is noted as loud, where and in the words that it is made in, and is about no error.
pub proof fn law_remark_is_kept(level: Level, scope: Scope, text: &str, note: Note)
    requires
        call_ensures(Note::remark, (level, scope, text), note),
    ensures
        note.level == level,
        note.scope == scope,
        note.text@ == text@,
        note.error is None,
        note.exceptional is None,
{
}

/// There is a note for each error along a chain, in order. Recoverable errors are traced at `DEBUG`,
/// exceptional unrecoverable ones at `ERROR`, and unexceptional ones at `TRACE`.
pub proof fn law_chain_is_noted(
    exceptional: Option<bool>,
    links: usize,
    notes: Vec<Note>,
    i: int,
    index: String,
    total: String,
)
    requires
        call_ensures(Note::on_chain, (exceptional, links), notes),
        0 <= i < links,
        call_ensures(write_decimal, ((i + 1) as usize,), index),
        call_ensures(write_decimal, (links,), total),
    ensures
        notes@.len() == links,
        notes@[i].error == Some(i as usize),
        notes@[i].exceptional == exceptional,
        exceptional is None ==> notes@[i].level is Debug && notes@[i].scope is Recoverable,
        exceptional == Some(true) ==> notes@[i].level is Error && notes@[i].scope is Unrecoverable,
        exceptional == Some(false) ==> notes@[i].level is Trace && notes@[i].scope is Unrecoverable,
        notes@[i].text@ == "Error "@ + index@ + "/"@ + total@,
{
    assert(views(notes@).len() == notes@.len());
    assert(views(notes@)[i] == notes@[i]@);
}

} // verus!
