//! The rules of a call, as pure functions on plain values.
//!
//! A call offers one command to the session's channel and then waits on the
//! reply slot that the command carries. What the channel and the slot report
//! is out of the call's hands; what the call makes of each report is decided
//! here. [`step`] is the whole transition function, [`begin_close`] decides
//! whether a shutdown request is needed at all, and [`request_result`] turns
//! the end of an exchange into what the caller is handed.
//!
//! The second half of the module states what follows for every sequence of
//! reports, whatever the channel, the actor and the scheduler do.

use vstd::prelude::*;
use crate::error::Error;

verus! {

/// How far a call has come. A call passes through the phases in the order in
/// which they stand here, may skip some, and never goes back.
#[derive(Clone, Copy, Debug, PartialEq, Eq, Structural)]
pub enum Phase {
    /// Not begun: no reply slot exists and nothing was offered to the channel.
    Idle,
    /// The command is on offer and the hand-over is not complete: the channel
    /// has not queued the command yet, or has queued it and holds the sender
    /// back until the queue has drained.
    Sending,
    /// The hand-over is complete; the reply is outstanding.
    Awaiting,
    /// Over. The caller has been handed the result.
    Done,
}

/// What the channel reports on one attempt to complete the hand-over of a
/// command.
#[derive(Clone, Copy, Debug, PartialEq, Eq, Structural)]
pub enum SendPoll {
    /// The sender has to wait: for room before the command can be queued, or,
    /// with the command queued already, until the queue has drained.
    Pending,
    /// The hand-over is complete: the command went into the queue.
    Accepted,
    /// The channel is closed. The command, and the reply slot in it, is lost.
    Refused,
}

/// What a reply slot reports when its consumer half is asked for the value.
#[derive(Debug)]
pub enum ReplyPoll<T> {
    /// The producer half is alive and has not been used yet.
    Pending,
    /// The producer half was used: this is the value.
    Fulfilled(T),
    /// The producer half was discarded without a value.
    Dropped,
}

/// What a command asks of the actor: the command without its reply slot.
#[derive(Clone, Copy, Debug, PartialEq, Eq, Structural)]
pub enum Request {
    /// A new stream.
    OpenStream,
    /// The last measured round trip.
    LatestPing,
    /// The end of the session.
    Shutdown,
}

/// One report to a call, from the channel or from the reply slot.
#[derive(Debug)]
pub enum Event<T> {
    /// From the channel, about the command.
    Send(SendPoll),
    /// From the reply slot.
    Reply(ReplyPoll<T>),
}

impl Phase {
    /// The place of a phase in the order of a call.
    pub open spec fn rank(self) -> nat {
        match self {
            Phase::Idle => 0,
            Phase::Sending => 1,
            Phase::Awaiting => 2,
            Phase::Done => 3,
        }
    }

    /// Whether the call is over.
    pub open spec fn spec_is_done(self) -> bool {
        self == Phase::Done
    }

    /// Whether the call is over.
    #[verifier::when_used_as_spec(spec_is_done)]
    pub fn is_done(self) -> (done: bool)
        ensures
            done == (self == Phase::Done),
    {
        self == Phase::Done
    }
}

/// The phase of a call after `event`, for a call that was in `phase`.
///
/// A report moves a call only in the phase that asked for it: the channel's
/// word counts while the command is on offer, the slot's word while the reply
/// is outstanding. Everything else leaves the call where it is.
pub open spec fn next_phase<T>(phase: Phase, event: Event<T>) -> Phase {
    match (phase, event) {
        (Phase::Sending, Event::Send(SendPoll::Accepted)) => Phase::Awaiting,
        (Phase::Sending, Event::Send(SendPoll::Refused)) => Phase::Done,
        (Phase::Awaiting, Event::Reply(ReplyPoll::Fulfilled(_))) => Phase::Done,
        (Phase::Awaiting, Event::Reply(ReplyPoll::Dropped)) => Phase::Done,
        _ => phase,
    }
}

/// The reply that a call in `phase` takes out of `event`: the value of a
/// fulfilled slot, if the call was waiting for it, and nothing otherwise.
pub open spec fn taken<T>(phase: Phase, event: Event<T>) -> Option<T> {
    match (phase, event) {
        (Phase::Awaiting, Event::Reply(ReplyPoll::Fulfilled(value))) => Some(value),
        _ => None,
    }
}

/// What a caller is handed when an exchange has ended with `reply`: the
/// actor's own answer where there is one, and `SessionShutdown` where there is
/// none, whether the channel refused the command or the slot was dropped.
pub open spec fn spec_request_result<T>(reply: Option<Result<T, Error>>) -> Result<T, Error> {
    match reply {
        Some(answer) => answer,
        None => Err(Error::SessionShutdown),
    }
}

/// The phase in which a shutdown request starts: over at once where the
/// channel is closed already, on offer otherwise.
pub open spec fn spec_begin_close(closed: bool) -> Phase {
    if closed {
        Phase::Done
    } else {
        Phase::Sending
    }
}

/// Takes a call one report further: the new phase, and the reply if this
/// report brought it.
pub fn step<T>(phase: Phase, event: Event<T>) -> (next: (Phase, Option<T>))
    ensures
        next.0 == next_phase(phase, event),
        next.1 == taken(phase, event),
{
    match phase {
        Phase::Sending => match event {
            Event::Send(SendPoll::Accepted) => (Phase::Awaiting, None),
            Event::Send(SendPoll::Refused) => (Phase::Done, None),
            _ => (Phase::Sending, None),
        },
        Phase::Awaiting => match event {
            Event::Reply(ReplyPoll::Fulfilled(value)) => (Phase::Done, Some(value)),
            Event::Reply(ReplyPoll::Dropped) => (Phase::Done, None),
            _ => (Phase::Awaiting, None),
        },
        Phase::Idle => (Phase::Idle, None),
        Phase::Done => (Phase::Done, None),
    }
}

/// Decides how a shutdown request starts, given whether the channel was found
/// closed. On a closed channel there is nobody left to tell: the call is over
/// before it has offered anything.
pub fn begin_close(closed: bool) -> (phase: Phase)
    ensures
        phase == spec_begin_close(closed),
        closed ==> phase == Phase::Done,
        !closed ==> phase == Phase::Sending,
{
    if closed {
        Phase::Done
    } else {
        Phase::Sending
    }
}

/// The result of `open_stream` or `latest_ping` once its exchange has ended
/// with `reply`.
pub fn request_result<T>(reply: Option<Result<T, Error>>) -> (result: Result<T, Error>)
    ensures
        result == spec_request_result(reply),
        result == Err::<T, Error>(Error::SessionShutdown) <==> (reply is None
            || reply == Some(Err::<T, Error>(Error::SessionShutdown))),
{
    match reply {
        Some(answer) => answer,
        None => Err(Error::SessionShutdown),
    }
}

/// The phase of a call that was in `phase` and has since been given every
/// report of `events`, the first one first.
pub open spec fn run<T>(phase: Phase, events: Seq<Event<T>>) -> Phase
    decreases events.len(),
{
    if events.len() == 0 {
        phase
    } else {
        run(next_phase(phase, events[0]), events.skip(1))
    }
}

/// How many replies such a call takes on the way.
pub open spec fn replies_taken<T>(phase: Phase, events: Seq<Event<T>>) -> nat
    decreases events.len(),
{
    if events.len() == 0 {
        0
    } else {
        let rest = replies_taken(next_phase(phase, events[0]), events.skip(1));
        if taken(phase, events[0]) is Some {
            rest + 1
        } else {
            rest
        }
    }
}

/// The reply that such a call takes on the way: the first one, if there is
/// any.
pub open spec fn reply_of<T>(phase: Phase, events: Seq<Event<T>>) -> Option<T>
    decreases events.len(),
{
    if events.len() == 0 {
        None
    } else {
        match taken(phase, events[0]) {
            Some(value) => Some(value),
            None => reply_of(next_phase(phase, events[0]), events.skip(1)),
        }
    }
}

/// Whether `event` is a fulfilled reply slot.
pub open spec fn is_answer<T>(event: Event<T>) -> bool {
    event matches Event::Reply(ReplyPoll::Fulfilled(_))
}

/// A call that is over stays over: whatever is reported to it afterwards, it
/// does not move and it takes nothing.
pub proof fn lemma_done_is_final<T>(events: Seq<Event<T>>)
    ensures
        run(Phase::Done, events) == Phase::Done,
        replies_taken(Phase::Done, events) == 0,
        reply_of(Phase::Done, events) is None,
    decreases events.len(),
{
    if events.len() > 0 {
        lemma_done_is_final(events.skip(1));
    }
}

/// A call never goes back to an earlier phase.
pub proof fn lemma_phases_in_order<T>(phase: Phase, events: Seq<Event<T>>)
    ensures
        run(phase, events).rank() >= phase.rank(),
    decreases events.len(),
{
    if events.len() > 0 {
        lemma_phases_in_order(next_phase(phase, events[0]), events.skip(1));
    }
}

/// A call takes at most one reply, however often and in whatever order the
/// channel and the slot report, and the reply it takes ends it.
pub proof fn lemma_at_most_one_reply<T>(phase: Phase, events: Seq<Event<T>>)
    ensures
        replies_taken(phase, events) <= 1,
        replies_taken(phase, events) == 1 <==> reply_of(phase, events) is Some,
        reply_of(phase, events) is Some ==> run(phase, events) == Phase::Done,
    decreases events.len(),
{
    if events.len() > 0 {
        if taken(phase, events[0]) is Some {
            lemma_done_is_final(events.skip(1));
        } else {
            lemma_at_most_one_reply(next_phase(phase, events[0]), events.skip(1));
        }
    }
}

/// A call that is refused by the channel while its command is on offer is
/// over at once, without a reply: whatever is reported afterwards, a request
/// on a closed session comes back as `SessionShutdown`.
pub proof fn lemma_refused_is_shutdown<T>(events: Seq<Event<Result<T, Error>>>)
    requires
        events.len() > 0,
        events[0] == Event::<Result<T, Error>>::Send(SendPoll::Refused),
    ensures
        run(Phase::Sending, events) == Phase::Done,
        spec_request_result(reply_of(Phase::Sending, events)) == Err::<T, Error>(
            Error::SessionShutdown,
        ),
{
    lemma_done_is_final(events.skip(1));
}

/// Where no report is a fulfilled slot, no reply is taken: a request can end
/// in `SessionShutdown` only. A session whose actor has gone fulfils no slot,
/// so no call on any of its handles succeeds.
pub proof fn lemma_no_answer_is_shutdown<T>(phase: Phase, events: Seq<Event<Result<T, Error>>>)
    requires
        forall|i: int| 0 <= i < events.len() ==> !is_answer(#[trigger] events[i]),
    ensures
        reply_of(phase, events) is None,
        spec_request_result(reply_of(phase, events)) == Err::<T, Error>(Error::SessionShutdown),
    decreases events.len(),
{
    if events.len() > 0 {
        let rest = events.skip(1);
        assert(!is_answer(events[0]));
        assert forall|i: int| 0 <= i < rest.len() implies !is_answer(#[trigger] rest[i]) by {
            assert(rest[i] == events[i + 1]);
        }
        lemma_no_answer_is_shutdown(next_phase(phase, events[0]), rest);
    }
}

/// A request ends with what the actor answered exactly when it took that
/// answer from the slot; every other end is `SessionShutdown`.
pub proof fn lemma_result_is_answer_or_shutdown<T>(
    phase: Phase,
    events: Seq<Event<Result<T, Error>>>,
)
    ensures
        match reply_of(phase, events) {
            Some(answer) => {
                &&& spec_request_result(reply_of(phase, events)) == answer
                &&& exists|i: int|
                    0 <= i < events.len() && #[trigger] events[i] == Event::Reply(
                        ReplyPoll::Fulfilled(answer),
                    )
            },
            None => spec_request_result(reply_of(phase, events)) == Err::<T, Error>(
                Error::SessionShutdown,
            ),
        },
    decreases events.len(),
{
    if events.len() > 0 {
        let rest = events.skip(1);
        match taken(phase, events[0]) {
            Some(answer) => {
                assert(events[0] == Event::Reply(ReplyPoll::Fulfilled(answer)));
            },
            None => {
                lemma_result_is_answer_or_shutdown(next_phase(phase, events[0]), rest);
                if let Some(answer) = reply_of(phase, events) {
                    let i = choose|i: int|
                        0 <= i < rest.len() && #[trigger] rest[i] == Event::Reply(
                            ReplyPoll::Fulfilled(answer),
                        );
                    assert(events[i + 1] == rest[i]);
                }
            },
        }
    }
}

/// Closing is idempotent. A shutdown request that finds the channel closed is
/// over before it has offered anything, and nothing that is reported
/// afterwards moves it or hands it a reply. One that finds the channel open
/// puts its command on offer.
pub proof fn lemma_close_on_closed_channel<T>(events: Seq<Event<T>>)
    ensures
        spec_begin_close(true) == Phase::Done,
        spec_begin_close(false) == Phase::Sending,
        run(spec_begin_close(true), events) == Phase::Done,
        replies_taken(spec_begin_close(true), events) == 0,
{
    lemma_done_is_final(events);
}

} // verus!
