use std::fmt;

use sisyphus_tasks::{count_chain, read_chain, write_decimal, Level, Note, Scope};

#[test]
fn decimals() {
    assert_eq!(write_decimal(0), "0");
    assert_eq!(write_decimal(9), "9");
    assert_eq!(write_decimal(10), "10");
    assert_eq!(write_decimal(907), "907");
    assert_eq!(write_decimal(usize::MAX), format!("{}", usize::MAX));
}

#[test]
fn chains_read_from_the_outermost_error() {
    let alone = eyre::Report::msg("alone");
    assert_eq!(count_chain(&alone), 1);
    assert_eq!(read_chain(&alone, 0).as_deref(), Some("alone"));
    assert_eq!(read_chain(&alone, 1), None);
    let err = eyre::Report::msg("refused")
        .wrap_err("cannot connect")
        .wrap_err("cannot sync");
    assert_eq!(count_chain(&err), 3);
    assert_eq!(read_chain(&err, 0).as_deref(), Some("cannot sync"));
    assert_eq!(read_chain(&err, 1).as_deref(), Some("cannot connect"));
    assert_eq!(read_chain(&err, 2).as_deref(), Some("refused"));
    assert_eq!(read_chain(&err, 3), None);
    assert_eq!(read_chain(&err, usize::MAX), None);
}

#[test]
fn recoverable_errors_are_noted_at_debug() {
    let notes = Note::on_chain(None, 2);
    assert_eq!(notes.len(), 2);
    assert_eq!(notes[0].text, "Error 1/2");
    assert_eq!(notes[0].error, Some(0));
    assert_eq!(notes[1].text, "Error 2/2");
    assert_eq!(notes[1].error, Some(1));
    for note in &notes {
        assert_eq!(note.level, Level::Debug);
        assert_eq!(note.scope, Scope::Recoverable);
        assert_eq!(note.exceptional, None);
    }
}

#[test]
fn exceptional_errors_are_noted_at_error() {
    let notes = Note::on_chain(Some(true), 1);
    assert_eq!(notes.len(), 1);
    assert_eq!(notes[0].level, Level::Error);
    assert_eq!(notes[0].scope, Scope::Unrecoverable);
    assert_eq!(notes[0].text, "Error 1/1");
    assert_eq!(notes[0].exceptional, Some(true));
}

#[test]
fn unexceptional_errors_are_noted_at_trace() {
    let notes = Note::on_chain(Some(false), 1);
    assert_eq!(notes[0].level, Level::Trace);
    assert_eq!(notes[0].scope, Scope::Unrecoverable);
    assert_eq!(notes[0].exceptional, Some(false));
}

#[test]
fn twelve_errors_are_counted() {
    let notes = Note::on_chain(None, 12);
    assert_eq!(notes.len(), 12);
    assert_eq!(notes[9].text, "Error 10/12");
    assert_eq!(notes[11].text, "Error 12/12");
    assert_eq!(notes[11].error, Some(11));
}

#[test]
fn remarks_are_about_no_error() {
    let note = Note::remark(Level::Warn, Scope::Shutdown, "so long");
    assert_eq!(note.level, Level::Warn);
    assert_eq!(note.scope, Scope::Shutdown);
    assert_eq!(note.text, "so long");
    assert_eq!(note.error, None);
    assert_eq!(note.exceptional, None);
}

#[derive(Debug)]
struct Mute;

impl fmt::Display for Mute {
    fn fmt(&self, f: &mut fmt::Formatter<'_>) -> fmt::Result {
        f.write_str("mm")?;
        Err(fmt::Error)
    }
}

impl std::error::Error for Mute {}

#[test]
fn an_error_that_fails_to_render_is_read_as_far_as_it_went() {
    assert_eq!(
        read_chain(&eyre::Report::new(Mute), 0).as_deref(),
        Some("mm")
    );
}
