//! The watcher's use of its two broadcast channels: polling the start
//! signal and the killswitch, and announcing a reason.

use vstd::prelude::*;
use tokio::sync::broadcast::error::TryRecvError;
use tokio::sync::broadcast::{Receiver, Sender};
use crate::reason::{dropped_reason, dropped_text, reason, reason_text};
use crate::watcher::{Ending, Event, KillPoll, StartPoll, WatcherError};

verus! {

/// The sending half of a broadcast channel of `tokio`. Opaque here.
#[verifier::external_type_specification]
#[verifier::external_body]
#[verifier::reject_recursive_types(T)]
pub struct ExSender<T>(Sender<T>);

/// The receiving half of a broadcast channel of `tokio`. Opaque here.
#[verifier::external_type_specification]
#[verifier::external_body]
#[verifier::reject_recursive_types(T)]
pub struct ExReceiver<T>(Receiver<T>);

/// What a receive that does not block gave.
#[derive(Debug)]
pub enum Polled<T> {
    /// A value was waiting.
    Received(T),
    /// Nothing is waiting, and senders are left.
    Empty,
    /// Nothing is waiting, and no sender is left.
    Closed,
    /// So many values were overwritten before this receiver read them.
    Lagged(u64),
}

/// The error of a send that found no receiver subscribed.
#[derive(Clone, Copy, Debug, PartialEq, Eq)]
pub struct NoReceiver;

/// A reason that was handed to the killswitch.
#[derive(Debug)]
pub struct Broadcast {
    /// The reason that was sent.
    pub reason: String,
    /// How many receivers were subscribed, or `None` if there was none and
    /// the reason went nowhere.
    pub receivers: Option<usize>,
}

/// Trusted: `Receiver::try_recv` of `tokio::sync::broadcast`, its result
/// rewritten variant by variant. What it gives depends on the other holders
/// of the channel, so nothing is claimed of it.
#[verifier::external_body]
fn try_recv<T: Clone>(receiver: &mut Receiver<T>) -> (polled: Polled<T>) {
    match receiver.try_recv() {
        Ok(value) => Polled::Received(value),
        Err(TryRecvError::Empty) => Polled::Empty,
        Err(TryRecvError::Closed) => Polled::Closed,
        Err(TryRecvError::Lagged(skipped)) => Polled::Lagged(skipped),
    }
}

/// Trusted: `Sender::send` of `tokio::sync::broadcast`. It succeeds when at
/// least one receiver is subscribed and then returns their number; the
/// contract claims only that this number is not zero.
#[verifier::external_body]
fn send<T>(sender: &Sender<T>, value: T) -> (receivers: Option<usize>)
    ensures
        receivers matches Some(count) ==> count >= 1,
{
    match sender.send(value) {
        Ok(count) => Some(count),
        Err(_) => None,
    }
}

/// The event that a poll of the start signal stands for. A receiver that
/// lagged has been sent more signals than the channel keeps: the start was
/// signalled, however often.
pub open spec fn start_event_of(polled: Polled<()>) -> Event {
    match polled {
        Polled::Received(_) | Polled::Lagged(_) => Event::Start(StartPoll::Received),
        Polled::Empty => Event::Start(StartPoll::Empty),
        Polled::Closed => Event::Start(StartPoll::Closed),
    }
}

/// The event that a poll of the killswitch stands for. Any value is a
/// request to stop, whatever it says, and so are values that were
/// overwritten before they were read.
pub open spec fn kill_event_of(polled: Polled<String>) -> Event {
    match polled {
        Polled::Received(_) | Polled::Lagged(_) => Event::Kill(KillPoll::Received),
        Polled::Empty => Event::Kill(KillPoll::Empty),
        Polled::Closed => Event::Kill(KillPoll::Closed),
    }
}

/// The reason that a poll of the killswitch brought, if it brought one.
pub open spec fn kill_reason_of(polled: Polled<String>) -> Option<String> {
    match polled {
        Polled::Received(reason) => Some(reason),
        _ => None,
    }
}

/// Turns what a poll of the start signal gave into the watcher's event.
pub fn start_event(polled: Polled<()>) -> (event: Event)
    ensures
        event == start_event_of(polled),
{
    match polled {
        Polled::Received(_) => Event::Start(StartPoll::Received),
        Polled::Lagged(_) => Event::Start(StartPoll::Received),
        Polled::Empty => Event::Start(StartPoll::Empty),
        Polled::Closed => Event::Start(StartPoll::Closed),
    }
}

/// Turns what a poll of the killswitch gave into the watcher's event and
/// the reason that came with it.
pub fn kill_event(polled: Polled<String>) -> (answer: (Event, Option<String>))
    ensures
        answer.0 == kill_event_of(polled),
        answer.1 == kill_reason_of(polled),
{
    match polled {
        Polled::Received(reason) => (Event::Kill(KillPoll::Received), Some(reason)),
        Polled::Lagged(_) => (Event::Kill(KillPoll::Received), None),
        Polled::Empty => (Event::Kill(KillPoll::Empty), None),
        Polled::Closed => (Event::Kill(KillPoll::Closed), None),
    }
}

/// Polls the start signal without blocking. Whatever the channel gives,
/// the answer is the event of a poll of the start signal.
pub fn poll_start(receiver: &mut Receiver<()>) -> (event: Event)
    ensures
        event is Start,
{
    start_event(try_recv(receiver))
}

/// Polls the killswitch without blocking. Whatever the channel gives, the
/// answer is the event of a poll of the killswitch, and a reason comes with
/// it only when a value was received.
pub fn poll_killswitch(receiver: &mut Receiver<String>) -> (answer: (Event, Option<String>))
    ensures
        answer.0 is Kill,
        answer.1 is Some ==> answer.0 == Event::Kill(KillPoll::Received),
{
    kill_event(try_recv(receiver))
}

/// Start signals that were sent again before the watcher polled count as
/// the one start: the poll gives the event that a single signal gives.
pub proof fn lemma_repeated_start_is_one_start(skipped: u64)
    ensures
        start_event_of(Polled::Lagged(skipped)) == start_event_of(Polled::Received(())),
        start_event_of(Polled::Lagged(skipped)) == Event::Start(StartPoll::Received),
{
}

/// Signals the start to every subscribed receiver, and returns their
/// number. Fails when no receiver is left to take the signal.
pub fn signal_start(sender: &Sender<()>) -> (delivered: Result<usize, NoReceiver>)
    ensures
        delivered matches Ok(count) ==> count >= 1,
{
    start_delivery(send(sender, ()))
}

/// Announces on the killswitch, once, the reason for the outcome of the
/// watcher of the pipeline with the identifier `id`.
pub fn announce(
    sender: &Sender<String>,
    outcome: Result<Ending, WatcherError>,
    id: u128,
) -> (sent: Broadcast)
    ensures
        sent.reason@ == reason_text(outcome, id),
        sent.receivers matches Some(count) ==> count >= 1,
{
    let text = reason(outcome, id);
    let receivers = send(sender, text.clone());
    Broadcast { reason: text, receivers }
}

/// Announces on the killswitch, once, that the runner was destroyed.
pub fn announce_dropped(sender: &Sender<String>) -> (sent: Broadcast)
    ensures
        sent.reason@ == dropped_text(),
        sent.receivers matches Some(count) ==> count >= 1,
{
    let text = dropped_reason();
    let receivers = send(sender, text.clone());
    Broadcast { reason: text, receivers }
}

/// What the caller of a start signal is told, given what the send gave: the
/// number of receivers that were subscribed, or the error when there was none.
pub open spec fn start_delivery_of(receivers: Option<usize>) -> Result<usize, NoReceiver> {
    match receivers {
        Some(count) => Ok(count),
        None => Err(NoReceiver),
    }
}

/// Turns what the send of a start signal gave into what its caller is told.
/// The signal is reported as delivered exactly when a receiver was there.
pub fn start_delivery(receivers: Option<usize>) -> (delivered: Result<usize, NoReceiver>)
    ensures
        delivered == start_delivery_of(receivers),
        delivered is Ok <==> receivers is Some,
{
    match receivers {
        Some(count) => Ok(count),
        None => Err(NoReceiver),
    }
}

} // verus!
