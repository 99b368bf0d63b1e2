//! Non-blocking use of the bounded channels that connect the threads of the
//! pipeline.

use crossbeam_channel::{unbounded, Receiver, Sender, TryRecvError, TrySendError};
use vstd::prelude::*;

verus! {

/// `crossbeam_channel::Sender`, the sending end of a channel. It is carried
/// through as it is; nothing is claimed of what it holds.
#[verifier::external_type_specification]
#[verifier::external_body]
#[verifier::reject_recursive_types(T)]
pub struct ExSender<T>(Sender<T>);

/// `crossbeam_channel::Receiver`, the receiving end of a channel. It is
/// carried through as it is; nothing is claimed of what it holds.
#[verifier::external_type_specification]
#[verifier::external_body]
#[verifier::reject_recursive_types(T)]
pub struct ExReceiver<T>(Receiver<T>);

/// How a non-blocking send ended.
#[derive(Clone, Copy, Debug, PartialEq, Eq, Structural)]
pub enum SendOutcome {
    /// The message is in the channel.
    Sent,
    /// The channel held as many messages as it can; the message was dropped.
    Full,
    /// No receiver is left; the message was dropped.
    Disconnected,
}

/// What a non-blocking receive found.
#[derive(Debug)]
pub enum Received<T> {
    Message(T),
    /// Nothing is waiting.
    Empty,
    /// Nothing is waiting and no sender is left.
    Disconnected,
}

/// `crossbeam_channel::Sender::try_send`: hands `message` to the channel
/// without waiting and reports which of its three outcomes occurred. Which
/// one occurs depends on the other threads, so nothing is claimed of it.
#[verifier::external_body]
fn sender_try_send<T>(sender: &Sender<T>, message: T) -> (outcome: SendOutcome) {
    match sender.try_send(message) {
        Ok(()) => SendOutcome::Sent,
        Err(TrySendError::Full(_)) => SendOutcome::Full,
        Err(TrySendError::Disconnected(_)) => SendOutcome::Disconnected,
    }
}

/// `crossbeam_channel::Receiver::try_recv`: takes the next message without
/// waiting, if one is there. What is there depends on the other threads, so
/// nothing is claimed of the result.
#[verifier::external_body]
fn receiver_try_recv<T>(receiver: &Receiver<T>) -> (received: Received<T>) {
    match receiver.try_recv() {
        Ok(message) => Received::Message(message),
        Err(TryRecvError::Empty) => Received::Empty,
        Err(TryRecvError::Disconnected) => Received::Disconnected,
    }
}

/// Why a message was not taken by a channel, in the channel's own words.
pub open spec fn send_failure(outcome: SendOutcome) -> Seq<char> {
    match outcome {
        SendOutcome::Disconnected => "sending on a disconnected channel"@,
        _ => "sending on a full channel"@,
    }
}

/// `Display` of `crossbeam_channel::TrySendError`: the words with which the
/// channel tells of a refused message, one text for a full channel and one
/// for a channel without receiver, whatever the message was.
#[verifier::external_body]
fn try_send_error_text(outcome: SendOutcome) -> (text: String)
    requires
        outcome != SendOutcome::Sent,
    ensures
        text@ == send_failure(outcome),
{
    match outcome {
        SendOutcome::Disconnected => TrySendError::Disconnected(()).to_string(),
        _ => TrySendError::Full(()).to_string(),
    }
}

/// Why a message was not taken by a channel, in the channel's own words.
pub fn send_failure_text(outcome: SendOutcome) -> (text: String)
    requires
        outcome != SendOutcome::Sent,
    ensures
        text@ == send_failure(outcome),
{
    try_send_error_text(outcome)
}

/// `crossbeam_channel::unbounded`: a new channel without a limit on what it
/// holds, as its sending and its receiving end.
#[verifier::external_body]
fn unbounded_channel<T>() -> (ends: (Sender<T>, Receiver<T>)) {
    unbounded()
}

/// A new channel for the one answer to a request.
pub fn response_channel<T>() -> (ends: (Sender<T>, Receiver<T>)) {
    unbounded_channel()
}

/// Offers `message` to the channel without waiting.
pub fn try_submit<T>(sender: &Sender<T>, message: T) -> (outcome: SendOutcome) {
    sender_try_send(sender, message)
}

/// Takes the next message of the channel without waiting.
pub fn try_take<T>(receiver: &Receiver<T>) -> (received: Received<T>) {
    receiver_try_recv(receiver)
}

/// Takes the messages that wait in the channel, in their order, until none
/// is left or `limit` were taken.
pub fn drain<T>(receiver: &Receiver<T>, limit: usize) -> (batch: Vec<T>)
    ensures
        batch@.len() <= limit,
{
    let mut batch: Vec<T> = Vec::new();
    while batch.len() < limit
        invariant
            batch@.len() <= limit,
        decreases limit - batch@.len(),
    {
        match receiver_try_recv(receiver) {
            Received::Message(message) => {
                batch.push(message);
            },
            _ => {
                break ;
            },
        }
    }
    batch
}

/// Takes and drops the messages that wait in the channel, at most `limit`
/// of them, and returns how many there were.
pub fn discard<T>(receiver: &Receiver<T>, limit: usize) -> (dropped: usize)
    ensures
        dropped <= limit,
{
    let mut dropped: usize = 0;
    while dropped < limit
        invariant
            dropped <= limit,
        decreases limit - dropped,
    {
        match receiver_try_recv(receiver) {
            Received::Message(_) => {
                dropped += 1;
            },
            _ => {
                break ;
            },
        }
    }
    dropped
}

} // verus!
