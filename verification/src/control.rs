//! The control handle and its three calls.
//!
//! A call is a value of its own, borrowed from the handle. It is lazy: making
//! it does nothing. Its first step, `start`, makes the reply slot and puts the
//! command on offer; every `poll` takes the call as far as it goes without
//! waiting, and takes the first step where nobody has. What a call does on
//! each report of the channel and of the reply slot is decided by the
//! functions of [`crate::protocol`]; the code here obtains the reports and
//! keeps what the next phase needs.
//!
//! A call that is dropped before it is over stops where it is. A command that
//! the channel has taken by then is not taken back: the actor still carries
//! it out, and finds the reply slot abandoned when it comes to fill it.

use vstd::prelude::*;
use core::task::Context;
use futures::channel::{mpsc, oneshot};
use futures::sink::Send;
use crate::boundary::{offer, poll_reply, poll_send};
use crate::error::Error;
use crate::protocol::{
    begin_close,
    next_phase,
    request_result,
    spec_begin_close,
    step,
    taken,
    Event,
    Phase,
    ReplyPoll,
    Request,
    SendPoll,
};
use crate::stream::StreamHandle;

verus! {

/// What a handle asks of the session's actor. Every command carries the
/// producer half of its own reply slot; the actor uses it once, or lets go of
/// it to say that the session died under the request.
pub enum Command {
    /// Open a stream and answer with it.
    OpenStream(oneshot::Sender<Result<StreamHandle, Error>>),
    /// Answer with the last measured round trip, in milliseconds.
    LatestPing(oneshot::Sender<Result<u64, Error>>),
    /// Shut the session down and acknowledge.
    Shutdown(oneshot::Sender<()>),
}

/// A handle on a session: the sending half of the actor's command channel.
///
/// Clones share the channel, and so the session's fate.
pub struct Control(mpsc::Sender<Command>);

/// A call under way: what it holds in each phase.
#[verifier::reject_recursive_types(T)]
enum State<'a, T> {
    /// The handle, not used yet.
    Idle(&'a mut Control),
    /// The hand-over of the command, and the consumer half of its reply slot.
    Sending(Send<'a, mpsc::Sender<Command>, Command>, oneshot::Receiver<T>),
    /// The consumer half of the reply slot.
    Awaiting(oneshot::Receiver<T>),
    /// Nothing.
    Done,
}

impl<'a, T> State<'a, T> {
    spec fn phase(&self) -> Phase {
        match self {
            State::Idle(_) => Phase::Idle,
            State::Sending(_, _) => Phase::Sending,
            State::Awaiting(_) => Phase::Awaiting,
            State::Done => Phase::Done,
        }
    }

    /// The handle that the call will use, while it has not begun.
    spec fn handle(&self) -> Option<Control> {
        match self {
            State::Idle(control) => Some(**control),
            _ => None,
        }
    }

    /// What the call holds for the channel: the commands in its hand-over,
    /// each by what it asks. A call that is not sending holds none.
    spec fn on_offer(&self) -> Seq<Request> {
        match self {
            State::Sending(sending, _) => crate::boundary::on_offer(*sending),
            _ => Seq::empty(),
        }
    }

    fn current(&self) -> (phase: Phase)
        ensures
            phase == self.phase(),
    {
        match self {
            State::Idle(_) => Phase::Idle,
            State::Sending(_, _) => Phase::Sending,
            State::Awaiting(_) => Phase::Awaiting,
            State::Done => Phase::Done,
        }
    }

    /// The call after the channel has said `sent` of the command on offer.
    /// Once the hand-over is complete, it is let go and the slot is kept;
    /// once the channel has refused, both are let go.
    fn sent(
        sending: Send<'a, mpsc::Sender<Command>, Command>,
        consumer: oneshot::Receiver<T>,
        sent: SendPoll,
    ) -> (next: State<'a, T>)
        ensures
            next.phase() == next_phase::<T>(Phase::Sending, Event::Send(sent)),
            next == match sent {
                SendPoll::Pending => State::Sending(sending, consumer),
                SendPoll::Accepted => State::Awaiting(consumer),
                SendPoll::Refused => State::Done,
            },
    {
        let (phase, _) = step::<T>(Phase::Sending, Event::Send(sent));
        match phase {
            Phase::Sending => State::Sending(sending, consumer),
            Phase::Awaiting => State::Awaiting(consumer),
            _ => State::Done,
        }
    }

    /// The call after the reply slot has said `polled`, and the reply if
    /// that was it. The slot is kept only while it is empty.
    fn replied(consumer: oneshot::Receiver<T>, polled: ReplyPoll<T>) -> (next: (
        State<'a, T>,
        Option<T>,
    ))
        ensures
            next.0.phase() == next_phase(Phase::Awaiting, Event::Reply(polled)),
            next.1 == taken(Phase::Awaiting, Event::Reply(polled)),
            next.0 == match polled {
                ReplyPoll::Pending => State::Awaiting(consumer),
                _ => State::<'a, T>::Done,
            },
    {
        let (phase, reply) = step(Phase::Awaiting, Event::Reply(polled));
        match phase {
            Phase::Awaiting => (State::Awaiting(consumer), reply),
            _ => (State::Done, reply),
        }
    }

    /// Takes a call as far as it goes without waiting: first the hand-over of
    /// the command, then the reply. The reply comes back with the state in
    /// which the call is over, and only with it.
    fn advance(self, cx: &mut Context<'_>) -> (next: (State<'a, T>, Option<T>))
        ensures
            next.0.phase().rank() >= self.phase().rank(),
            next.0.phase() == Phase::Idle <==> self.phase() == Phase::Idle,
            next.1 is Some ==> next.0.phase() == Phase::Done,
            self.phase() == Phase::Idle || self.phase() == Phase::Done ==> next == (self, None::<T>),
    {
        let handed_over = match self {
            State::Sending(mut sending, consumer) => {
                let sent = poll_send(&mut sending, cx);
                State::sent(sending, consumer, sent)
            },
            other => other,
        };
        match handed_over {
            State::Awaiting(mut consumer) => {
                let polled = poll_reply(&mut consumer, cx);
                State::replied(consumer, polled)
            },
            other => (other, None),
        }
    }
}

/// A call of [`Control::open_stream`].
pub struct OpenStream<'a> {
    state: State<'a, Result<StreamHandle, Error>>,
}

/// A call of [`Control::latest_ping`].
pub struct LatestPing<'a> {
    state: State<'a, Result<u64, Error>>,
}

/// A call of [`Control::close`].
pub struct Close<'a> {
    state: State<'a, ()>,
}

impl Clone for Control {
    /// Another handle on the same session.
    fn clone(&self) -> (other: Self) {
        Control(self.0.clone())
    }
}

impl Control {
    /// The sending half that the handle wraps.
    pub closed spec fn sender(&self) -> mpsc::Sender<Command> {
        self.0
    }

    /// A handle on the session whose actor holds the receiving half that
    /// belongs to `sender`.
    pub fn new(sender: mpsc::Sender<Command>) -> (control: Control)
        ensures
            control.sender() == sender,
    {
        Control(sender)
    }

    /// Asks the actor for a new stream. The call that comes back has not
    /// begun: nothing is sent before it is polled.
    pub fn open_stream(&mut self) -> (call: OpenStream<'_>)
        ensures
            call.phase() == Phase::Idle,
            call.handle() == Some(*old(self)),
            call.on_offer() == Seq::<Request>::empty(),
    {
        OpenStream { state: State::Idle(self) }
    }

    /// Asks the actor for the last round trip that it has measured, in
    /// milliseconds. What an actor answers before it has measured any is the
    /// actor's choice: the handle passes the answer on as it is. The call that
    /// comes back has not begun: nothing is sent before it is polled.
    pub fn latest_ping(&mut self) -> (call: LatestPing<'_>)
        ensures
            call.phase() == Phase::Idle,
            call.handle() == Some(*old(self)),
            call.on_offer() == Seq::<Request>::empty(),
    {
        LatestPing { state: State::Idle(self) }
    }

    /// Asks the actor to shut the session down, with all of its streams. The
    /// call that comes back has not begun: nothing is looked at or sent
    /// before it is polled.
    pub fn close(&mut self) -> (call: Close<'_>)
        ensures
            call.phase() == Phase::Idle,
            call.handle() == Some(*old(self)),
            call.on_offer() == Seq::<Request>::empty(),
    {
        Close { state: State::Idle(self) }
    }
}

impl<'a> OpenStream<'a> {
    /// How far the call has come.
    pub closed spec fn spec_phase(&self) -> Phase {
        self.state.phase()
    }

    /// The handle that the call will use, while the call has not begun.
    pub closed spec fn handle(&self) -> Option<Control> {
        self.state.handle()
    }

    /// What the call holds for the channel: the commands in its hand-over,
    /// each by what it asks. Only a call that is sending holds any.
    pub closed spec fn on_offer(&self) -> Seq<Request> {
        self.state.on_offer()
    }

    /// How far the call has come.
    #[verifier::when_used_as_spec(spec_phase)]
    pub fn phase(&self) -> (phase: Phase)
        ensures
            phase == self.spec_phase(),
    {
        self.state.current()
    }

    /// Makes the reply slot and puts the one command on offer that asks for a stream.
    fn begin(control: &'a mut Control) -> (state: State<'a, Result<StreamHandle, Error>>)
        ensures
            state.phase() == Phase::Sending,
            state.on_offer() == seq![Request::OpenStream],
    {
        let (producer, consumer) = oneshot::channel();
        State::Sending(offer(&mut control.0, Command::OpenStream(producer)), consumer)
    }

    /// Begins the call, if it has not begun: makes the reply slot and puts the
    /// one command on offer that asks for a stream. Nothing has reached the
    /// channel by then; that is the work of `poll`, which starts a call that
    /// nobody has started.
    pub fn start(&mut self)
        ensures
            old(self).phase() == Phase::Idle ==> final(self).phase() == Phase::Sending,
            old(self).phase() == Phase::Idle ==> final(self).on_offer() == seq![Request::OpenStream],
            old(self).phase() != Phase::Idle ==> *final(self) == *old(self),
    {
        let mut state = State::Done;
        core::mem::swap(&mut self.state, &mut state);
        self.state = match state {
            State::Idle(control) => OpenStream::begin(control),
            other => other,
        };
    }

    /// Takes the call as far as it goes without waiting, and hands out the
    /// result once it is over. `None` says that the call had to stop, for the
    /// channel or for the reply; the task behind `cx` is woken when there is a
    /// reason to poll again.
    ///
    /// The result is the actor's answer if the call took one from its slot,
    /// and `SessionShutdown` if the channel refused the command or the actor
    /// let go of the slot. A call that is over is not polled again.
    pub fn poll(&mut self, cx: &mut Context<'_>) -> (out: Option<Result<StreamHandle, Error>>)
        requires
            old(self).phase() != Phase::Done,
        ensures
            out is Some <==> final(self).phase() == Phase::Done,
            final(self).phase() != Phase::Idle,
            final(self).phase().rank() >= old(self).phase().rank(),
            final(self).phase() != Phase::Sending ==> final(self).on_offer() == Seq::<Request>::empty(),
    {
        self.start();
        let mut state = State::Done;
        core::mem::swap(&mut self.state, &mut state);
        let (state, reply) = state.advance(cx);
        let over = state.current().is_done();
        self.state = state;
        if over {
            Some(request_result(reply))
        } else {
            None
        }
    }
}

impl<'a> LatestPing<'a> {
    /// How far the call has come.
    pub closed spec fn spec_phase(&self) -> Phase {
        self.state.phase()
    }

    /// The handle that the call will use, while the call has not begun.
    pub closed spec fn handle(&self) -> Option<Control> {
        self.state.handle()
    }

    /// What the call holds for the channel: the commands in its hand-over,
    /// each by what it asks. Only a call that is sending holds any.
    pub closed spec fn on_offer(&self) -> Seq<Request> {
        self.state.on_offer()
    }

    /// How far the call has come.
    #[verifier::when_used_as_spec(spec_phase)]
    pub fn phase(&self) -> (phase: Phase)
        ensures
            phase == self.spec_phase(),
    {
        self.state.current()
    }

    /// Makes the reply slot and puts the one command on offer that asks for the round trip.
    fn begin(control: &'a mut Control) -> (state: State<'a, Result<u64, Error>>)
        ensures
            state.phase() == Phase::Sending,
            state.on_offer() == seq![Request::LatestPing],
    {
        let (producer, consumer) = oneshot::channel();
        State::Sending(offer(&mut control.0, Command::LatestPing(producer)), consumer)
    }

    /// Begins the call, if it has not begun: makes the reply slot and puts the
    /// one command on offer that asks for the round trip. Nothing has reached the
    /// channel by then; that is the work of `poll`, which starts a call that
    /// nobody has started.
    pub fn start(&mut self)
        ensures
            old(self).phase() == Phase::Idle ==> final(self).phase() == Phase::Sending,
            old(self).phase() == Phase::Idle ==> final(self).on_offer() == seq![Request::LatestPing],
            old(self).phase() != Phase::Idle ==> *final(self) == *old(self),
    {
        let mut state = State::Done;
        core::mem::swap(&mut self.state, &mut state);
        self.state = match state {
            State::Idle(control) => LatestPing::begin(control),
            other => other,
        };
    }

    /// Takes the call as far as it goes without waiting, and hands out the
    /// result once it is over. `None` says that the call had to stop, for the
    /// channel or for the reply; the task behind `cx` is woken when there is a
    /// reason to poll again.
    ///
    /// The result is the actor's answer if the call took one from its slot,
    /// and `SessionShutdown` if the channel refused the command or the actor
    /// let go of the slot. A call that is over is not polled again.
    pub fn poll(&mut self, cx: &mut Context<'_>) -> (out: Option<Result<u64, Error>>)
        requires
            old(self).phase() != Phase::Done,
        ensures
            out is Some <==> final(self).phase() == Phase::Done,
            final(self).phase() != Phase::Idle,
            final(self).phase().rank() >= old(self).phase().rank(),
            final(self).phase() != Phase::Sending ==> final(self).on_offer() == Seq::<Request>::empty(),
    {
        self.start();
        let mut state = State::Done;
        core::mem::swap(&mut self.state, &mut state);
        let (state, reply) = state.advance(cx);
        let over = state.current().is_done();
        self.state = state;
        if over {
            Some(request_result(reply))
        } else {
            None
        }
    }
}

impl<'a> Close<'a> {
    /// How far the call has come.
    pub closed spec fn spec_phase(&self) -> Phase {
        self.state.phase()
    }

    /// The handle that the call will use, while the call has not begun.
    pub closed spec fn handle(&self) -> Option<Control> {
        self.state.handle()
    }

    /// What the call holds for the channel: the commands in its hand-over,
    /// each by what it asks. Only a call that is sending holds any.
    pub closed spec fn on_offer(&self) -> Seq<Request> {
        self.state.on_offer()
    }

    /// How far the call has come.
    #[verifier::when_used_as_spec(spec_phase)]
    pub fn phase(&self) -> (phase: Phase)
        ensures
            phase == self.spec_phase(),
    {
        self.state.current()
    }

    /// Begins the call, given whether the channel was found closed. On a
    /// closed channel the call is over and has touched nothing; on an open one
    /// the reply slot is made and the command put on offer.
    fn begin(control: &'a mut Control, closed: bool) -> (state: State<'a, ()>)
        ensures
            state.phase() == spec_begin_close(closed),
            closed ==> state == State::<'a, ()>::Done,
            !closed ==> state.on_offer() == seq![Request::Shutdown],
    {
        match begin_close(closed) {
            Phase::Sending => {
                let (producer, consumer) = oneshot::channel();
                State::Sending(offer(&mut control.0, Command::Shutdown(producer)), consumer)
            },
            _ => State::Done,
        }
    }

    /// Begins the call, if it has not begun: looks whether the channel is
    /// closed, and on an open one makes the reply slot and puts the one command
    /// on offer that asks for the end of the session. On a closed channel the
    /// call is over and holds nothing. Nothing has reached the channel by
    /// then; that is the work of `poll`, which starts a call that nobody has
    /// started.
    pub fn start(&mut self)
        ensures
            old(self).phase() == Phase::Idle ==> {
                ||| (final(self).phase() == Phase::Done && final(self).on_offer()
                    == Seq::<Request>::empty())
                ||| (final(self).phase() == Phase::Sending && final(self).on_offer()
                    == seq![Request::Shutdown])
            },
            old(self).phase() != Phase::Idle ==> *final(self) == *old(self),
    {
        let mut state = State::Done;
        core::mem::swap(&mut self.state, &mut state);
        self.state = match state {
            State::Idle(control) => {
                let closed = control.0.is_closed();
                Close::begin(control, closed)
            },
            other => other,
        };
    }

    /// Takes the call as far as it goes without waiting. `None` says that the
    /// call had to stop, for the channel or for the acknowledgement; the task
    /// behind `cx` is woken when there is a reason to poll again.
    ///
    /// A call that finds the channel closed is over on the spot and sends
    /// nothing. Otherwise it is over when the actor has acknowledged, or when
    /// the session has turned out to be gone: the caller wanted the session
    /// to stop, so neither is a failure and the two are not told apart. A call
    /// that is over is not polled again.
    pub fn poll(&mut self, cx: &mut Context<'_>) -> (out: Option<()>)
        requires
            old(self).phase() != Phase::Done,
        ensures
            out is Some <==> final(self).phase() == Phase::Done,
            final(self).phase() != Phase::Idle,
            final(self).phase().rank() >= old(self).phase().rank(),
            final(self).phase() != Phase::Sending ==> final(self).on_offer() == Seq::<Request>::empty(),
    {
        self.start();
        let mut state = State::Done;
        core::mem::swap(&mut self.state, &mut state);
        let (state, _) = state.advance(cx);
        let over = state.current().is_done();
        self.state = state;
        if over {
            Some(())
        } else {
            None
        }
    }
}

impl Command {
    /// What the command asks of the actor.
    pub open spec fn request(&self) -> Request {
        match self {
            Command::OpenStream(_) => Request::OpenStream,
            Command::LatestPing(_) => Request::LatestPing,
            Command::Shutdown(_) => Request::Shutdown,
        }
    }
}

} // verus!
