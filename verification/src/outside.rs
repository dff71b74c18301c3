//! What the library takes from outside crates: the types it carries, and the calls it trusts.

use std::fmt::Write;

use tokio::sync::{oneshot, watch};
use tokio::task::{JoinError, JoinHandle};
use vstd::prelude::*;
use vstd::string::to_string_from_display_ensures;

use crate::status::TaskStatus;

verus! {

/// `eyre::Report`, an error of any type together with its causes.
#[verifier::external_type_specification]
#[verifier::external_body]
pub struct ExReport(eyre::Report);

/// `tokio::task::JoinError`, why a task came to no result.
#[verifier::external_type_specification]
#[verifier::external_body]
pub struct ExJoinError(JoinError);

/// `tokio::task::JoinHandle`, the owner's hold on a spawned task.
#[verifier::external_type_specification]
#[verifier::external_body]
#[verifier::reject_recursive_types(T)]
pub struct ExJoinHandle<T>(JoinHandle<T>);

/// `tokio::sync::oneshot::Sender`, the sending end of a channel for one value.
#[verifier::external_type_specification]
#[verifier::external_body]
#[verifier::reject_recursive_types(T)]
pub struct ExOneshotSender<T>(oneshot::Sender<T>);

/// `tokio::sync::oneshot::Receiver`, the receiving end of a channel for one value.
#[verifier::external_type_specification]
#[verifier::external_body]
#[verifier::reject_recursive_types(T)]
pub struct ExOneshotReceiver<T>(oneshot::Receiver<T>);

/// `tokio::sync::oneshot::error::RecvError`, what awaiting the receiver gives when the sender is
/// gone.
#[verifier::external_type_specification]
#[verifier::external_body]
pub struct ExOneshotRecvError(oneshot::error::RecvError);

/// `tokio::sync::watch::Receiver`, the receiving end of a channel that keeps the last value sent.
#[verifier::external_type_specification]
#[verifier::external_body]
#[verifier::reject_recursive_types(T)]
pub struct ExWatchReceiver<T>(watch::Receiver<T>);

/// `tokio::sync::watch::error::RecvError`, what waiting for a change gives when the sender is gone.
#[verifier::external_type_specification]
#[verifier::external_body]
pub struct ExWatchRecvError(watch::error::RecvError);

/// Whether a walk along the chain of `report` may visit `links` errors.
///
/// The errors in a chain tell their own causes and render themselves, and nothing obliges them to
/// do so alike each time. So this is a relation, as `chain_reads` is: it holds of what `chain_len`
/// can give for `report`.
pub closed spec fn chain_counts(report: &eyre::Report, links: usize) -> bool {
    call_ensures(chain_len, (report,), links)
}

/// Whether the error at `place` along the chain of `report`, counted from zero at the outermost
/// one, may read `message`; `None` where the chain ends before.
pub closed spec fn chain_reads(
    report: &eyre::Report,
    place: usize,
    message: Option<Seq<char>>,
) -> bool {
    exists|read: Option<String>| #[trigger]
        call_ensures(chain_message, (report, place), read) && text_of(read) == message
}

/// The text of `message`, if there is one.
pub open spec fn text_of(message: Option<String>) -> Option<Seq<char>> {
    match message {
        Some(message) => Some(message@),
        None => None,
    }
}

/// Whether the chain of `report` is always one error, which reads `message`.
pub open spec fn says(report: &eyre::Report, message: Seq<char>) -> bool {
    &&& forall|links: usize| #[trigger] chain_counts(report, links) ==> links == 1
    &&& forall|place: usize, read: Option<Seq<char>>| #[trigger]
        chain_reads(report, place, read) ==> read == if place == 0 {
            Some(message)
        } else {
            None
        }
}

/// Whether the chain of `report` begins with what `error` displays as.
pub open spec fn begins_with<E: std::fmt::Display>(report: &eyre::Report, error: &E) -> bool {
    forall|read: Option<Seq<char>>| #[trigger]
        chain_reads(report, 0, read) ==> exists|text: String| #[trigger]
            to_string_from_display_ensures(error, text) && read == Some(text@)
}

/// Calls `eyre::Report::chain`, and `len` on the chain that it gives.
///
/// The chain begins with the error that the report was made from, so it is never empty. Which
/// causes follow is the errors' to tell.
#[verifier::external_body]
fn chain_len(report: &eyre::Report) -> (links: usize)
    ensures
        links >= 1,
{
    report.chain().len()
}

/// Calls `eyre::Report::chain`, and renders the error at `place` along it.
///
/// The chain begins with the error that the report was made from, so there is one at place zero.
/// What an error renders as is its own to say; of one that fails to render, what it wrote is kept.
#[verifier::external_body]
fn chain_message(report: &eyre::Report, place: usize) -> (message: Option<String>)
    ensures
        place == 0 ==> message is Some,
{
    report.chain().nth(place).map(|error| {
        let mut message = String::new();
        let _ = write!(message, "{}", error);
        message
    })
}

/// Counts the errors along the chain of `report`.
pub fn count_chain(report: &eyre::Report) -> (links: usize)
    ensures
        chain_counts(report, links),
        links >= 1,
{
    chain_len(report)
}

/// Reads the error at `place` along the chain of `report`, counted from zero at the outermost one.
/// Gives nothing where the chain ends before.
pub fn read_chain(report: &eyre::Report, place: usize) -> (message: Option<String>)
    ensures
        chain_reads(report, place, text_of(message)),
        place == 0 ==> message is Some,
{
    chain_message(report, place)
}

/// Calls `eyre::Report::msg`, which makes a report of a bare message.
///
/// The report's chain is that message alone: it has no source. How the report as a whole is
/// displayed is up to the hook that the program installed, and is not claimed.
#[verifier::external_body]
pub(crate) fn message_report(message: &'static str) -> (report: eyre::Report)
    ensures
        says(&report, message@),
{
    eyre::Report::msg(message)
}

/// `eyre::Report::from` makes a report of an error, as it is: the report's chain begins with that
/// error, rendered by its own `Display`. The causes that follow are the error's to tell, and are
/// not claimed.
pub assume_specification<E>[ <eyre::Report as From<E>>::from ](error: E) -> (report: eyre::Report)
    where E: std::error::Error + Send + Sync + 'static
    ensures
        begins_with(&report, &error),
;

/// `JoinError::is_panic` tells a task that panicked from one that was cancelled. The error is
/// opaque, so the answer is known by the call alone.
pub assume_specification[ JoinError::is_panic ](error: &JoinError) -> bool
;

/// `oneshot::Sender::send` hands the value to the receiver, or gives it back if the receiver is
/// gone. Which of the two happens rests on the receiver's owner.
pub assume_specification<T>[ oneshot::Sender::<T>::send ](
    sender: oneshot::Sender<T>,
    t: T,
) -> (sent: Result<(), T>)
    ensures
        sent matches Err(returned) ==> returned == t,
;

/// Calls `watch::Receiver::borrow` and clones the value that it lends. Which status that is rests
/// on what the sending task has sent by then.
#[verifier::external_body]
pub(crate) fn current_status(receiver: &watch::Receiver<TaskStatus>) -> TaskStatus {
    receiver.borrow().clone()
}

/// A chain is counted as eyre walks it, and read as its errors render: neither count nor text is
/// changed on the way.
proof fn law_chain_is_told_as_it_is(
    report: &eyre::Report,
    links: usize,
    place: usize,
    message: Option<String>,
)
    requires
        call_ensures(count_chain, (report,), links),
        call_ensures(read_chain, (report, place), message),
    ensures
        call_ensures(chain_len, (report,), links),
        links >= 1,
        exists|read: Option<String>| #[trigger]
            call_ensures(chain_message, (report, place), read) && match (read, message) {
                (Some(read), Some(message)) => read@ == message@,
                (None, None) => true,
                _ => false,
            },
        place == 0 ==> message is Some,
{
}

} // verus!
