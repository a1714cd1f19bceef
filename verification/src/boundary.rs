//! The channel and the reply slot of the `futures` crate, as far as a call
//! needs them.
//!
//! Nothing in this module is proved. The types are declared so that they can
//! be named and carried; none of them shows its contents. The functions make
//! one outside call each. What a poll reports depends on what other tasks
//! have done to the channel or to the slot in the meantime, so no function
//! that polls or reads claims anything about its result: the callers are
//! verified for every report that the result type admits. One claim is made,
//! of the making of a hand-over: that it holds the command it was given.

use vstd::prelude::*;
use core::future::Future;
use core::pin::Pin;
use core::task::{Context, Poll};
use futures::channel::{mpsc, oneshot};
use futures::sink::{Send, SinkExt};
use crate::control::Command;
use crate::protocol::{ReplyPoll, Request, SendPoll};

verus! {

/// `core::task::Context`: the waker of the task that is polling. A call only
/// hands it through to the outside futures.
#[verifier::external_type_specification]
#[verifier::external_body]
pub struct ExContext<'a>(Context<'a>);

/// `futures::channel::mpsc::Sender`: one sending handle of a bounded queue
/// with many producers and one consumer.
#[verifier::external_type_specification]
#[verifier::external_body]
#[verifier::reject_recursive_types(T)]
pub struct ExSender<T>(mpsc::Sender<T>);

/// `futures::sink::Send`: the future that `SinkExt::send` returns. It holds
/// the item until the sink has taken it.
#[verifier::external_type_specification]
#[verifier::external_body]
#[verifier::reject_recursive_types(Si)]
#[verifier::reject_recursive_types(Item)]
pub struct ExSending<'a, Si: ?Sized, Item>(Send<'a, Si, Item>);

/// `futures::channel::oneshot::Sender`: the producer half of a reply slot.
/// Filling the slot consumes the half, so a slot is filled once at most.
#[verifier::external_type_specification]
#[verifier::external_body]
#[verifier::reject_recursive_types(T)]
pub struct ExSlotProducer<T>(oneshot::Sender<T>);

/// `futures::channel::oneshot::Receiver`: the consumer half of a reply slot.
#[verifier::external_type_specification]
#[verifier::external_body]
#[verifier::reject_recursive_types(T)]
pub struct ExSlotConsumer<T>(oneshot::Receiver<T>);

/// `futures::channel::oneshot::Canceled`: what the consumer half yields when
/// the producer half was discarded unused. No code of this crate names it;
/// it is declared because the consumer half resolves to a `Result` with it.
#[verifier::external_type_specification]
#[verifier::external_body]
pub struct ExCanceled(oneshot::Canceled);

/// `futures::channel::oneshot::channel`: makes the two halves of a fresh
/// slot. Nothing is claimed of them.
pub assume_specification<T>[ oneshot::channel::<T> ]() -> (halves: (oneshot::Sender<T>, oneshot::Receiver<T>));

/// `mpsc::Sender::is_closed`: whether the queue takes no more items, because
/// its consumer has closed or dropped its end or the senders have closed it.
/// The answer is a reading of shared state, so nothing is claimed of it.
pub assume_specification<T>[ mpsc::Sender::<T>::is_closed ](sender: &mpsc::Sender<T>) -> (closed: bool);

/// `Clone::clone` of `mpsc::Sender`: one more sending handle of the same
/// queue. Nothing is claimed of it. The outside code gives up, with a panic,
/// only at a number of live handles above a quarter of `usize::MAX`; every
/// handle owns an allocation, so no address space holds that many.
pub assume_specification<T>[ <mpsc::Sender<T> as Clone>::clone ](
    sender: &mpsc::Sender<T>,
) -> (other: mpsc::Sender<T>);

/// What a hand-over holds for the queue: the commands that were given to it
/// and have not left it, each by what it asks. Only the making of a hand-over
/// is described in these terms; what a poll does to it is left open.
pub uninterp spec fn on_offer(sending: Send<'_, mpsc::Sender<Command>, Command>) -> Seq<Request>;

/// `SinkExt::send` on the sender of the command channel: the future that
/// hands `command` to the queue. Making it touches nothing; the work is done
/// when it is polled. The future is made holding the one item that it was
/// given, so what is on offer is this command and no other.
#[verifier::external_body]
pub(crate) fn offer<'a>(
    sender: &'a mut mpsc::Sender<Command>,
    command: Command,
) -> (sending: Send<'a, mpsc::Sender<Command>, Command>)
    ensures
        on_offer(sending) == seq![command.request()],
{
    sender.send(command)
}

/// `Future::poll` of the future of `SinkExt::send`: one attempt to hand the
/// item over and to see it settled in the queue. The body tells the three
/// outcomes apart and claims nothing about which of them comes.
///
/// The outside code gives up, with a panic, where the queue holds about half
/// of `usize::MAX` items, which no memory does, and where a waker has panicked
/// while the queue was waking it.
#[verifier::external_body]
pub(crate) fn poll_send<T>(
    sending: &mut Send<'_, mpsc::Sender<T>, T>,
    cx: &mut Context<'_>,
) -> (sent: SendPoll) {
    match Pin::new(sending).poll(cx) {
        Poll::Pending => SendPoll::Pending,
        Poll::Ready(Ok(())) => SendPoll::Accepted,
        Poll::Ready(Err(_)) => SendPoll::Refused,
    }
}

/// `Future::poll` of `oneshot::Receiver`: one look into the slot. The body
/// tells the three outcomes apart, moves the value out of the fulfilled one,
/// and claims nothing about which of them comes.
#[verifier::external_body]
pub(crate) fn poll_reply<T>(
    consumer: &mut oneshot::Receiver<T>,
    cx: &mut Context<'_>,
) -> (reply: ReplyPoll<T>) {
    match Pin::new(consumer).poll(cx) {
        Poll::Pending => ReplyPoll::Pending,
        Poll::Ready(Ok(value)) => ReplyPoll::Fulfilled(value),
        Poll::Ready(Err(_)) => ReplyPoll::Dropped,
    }
}

} // verus!
