use futures::channel::mpsc;
use std::sync::atomic::{AtomicUsize, Ordering};
use std::sync::Arc;
use std::task::{Context, Wake, Waker};
use yamux_control::{Command, Control, Error, Phase, StreamHandle};

struct Wakes(AtomicUsize);

impl Wake for Wakes {
    fn wake(self: Arc<Self>) {
        self.0.fetch_add(1, Ordering::SeqCst);
    }
}

#[test]
fn the_second_send_waits_for_capacity() {
    let (sender, mut receiver) = mpsc::channel::<Command>(1);
    let mut first_handle = Control::new(sender);
    let mut second_handle = first_handle.clone();
    let first_wakes = Arc::new(Wakes(AtomicUsize::new(0)));
    let second_wakes = Arc::new(Wakes(AtomicUsize::new(0)));
    let first_waker = Waker::from(first_wakes.clone());
    let second_waker = Waker::from(second_wakes.clone());
    let mut first_cx = Context::from_waker(&first_waker);
    let mut second_cx = Context::from_waker(&second_waker);

    let mut first = first_handle.open_stream();
    let mut second = second_handle.open_stream();
    assert_eq!(first.poll(&mut first_cx), None);
    assert_eq!(first.phase(), Phase::Awaiting);
    assert_eq!(second.poll(&mut second_cx), None);
    assert_eq!(second.phase(), Phase::Sending);

    for _ in 0..100 {
        assert_eq!(second.poll(&mut second_cx), None);
        assert_eq!(second.phase(), Phase::Sending);
    }
    assert_eq!(second_wakes.0.load(Ordering::SeqCst), 0);

    match receiver.try_recv() {
        Ok(Command::OpenStream(slot)) => assert_eq!(slot.send(Ok(StreamHandle::new(1))), Ok(())),
        _ => panic!("the actor expected a stream request"),
    }
    assert_eq!(second_wakes.0.load(Ordering::SeqCst), 1);
    assert_eq!(first_wakes.0.load(Ordering::SeqCst), 1);

    assert_eq!(second.poll(&mut second_cx), None);
    assert_eq!(second.phase(), Phase::Awaiting);
    assert_eq!(first.poll(&mut first_cx), Some(Ok(StreamHandle::new(1))));

    match receiver.try_recv() {
        Ok(Command::OpenStream(slot)) => assert_eq!(slot.send(Ok(StreamHandle::new(2))), Ok(())),
        _ => panic!("the actor expected a stream request"),
    }
    assert_eq!(second_wakes.0.load(Ordering::SeqCst), 2);
    assert_eq!(second.poll(&mut second_cx), Some(Ok(StreamHandle::new(2))));
}

#[test]
fn a_waiting_sender_learns_that_the_session_has_gone() {
    let (sender, receiver) = mpsc::channel::<Command>(0);
    let mut control = Control::new(sender);
    let wakes = Arc::new(Wakes(AtomicUsize::new(0)));
    let waker = Waker::from(wakes.clone());
    let mut cx = Context::from_waker(&waker);

    let mut call = control.close();
    assert_eq!(call.poll(&mut cx), None);
    assert_eq!(call.phase(), Phase::Sending);
    drop(receiver);
    assert!(wakes.0.load(Ordering::SeqCst) >= 1);
    assert_eq!(call.poll(&mut cx), Some(()));
    assert_eq!(call.phase(), Phase::Done);
}

#[test]
fn a_waiting_request_fails_when_the_session_goes() {
    let (sender, receiver) = mpsc::channel::<Command>(0);
    let mut control = Control::new(sender);
    let wakes = Arc::new(Wakes(AtomicUsize::new(0)));
    let waker = Waker::from(wakes.clone());
    let mut cx = Context::from_waker(&waker);

    let mut call = control.open_stream();
    assert_eq!(call.poll(&mut cx), None);
    assert_eq!(call.phase(), Phase::Sending);
    drop(receiver);
    assert!(wakes.0.load(Ordering::SeqCst) >= 1);
    assert_eq!(call.poll(&mut cx), Some(Err(Error::SessionShutdown)));
    assert_eq!(call.phase(), Phase::Done);
}

#[test]
fn a_full_channel_lets_the_sender_through_once_it_is_drained() {
    let (sender, mut receiver) = mpsc::channel::<Command>(0);
    let mut control = Control::new(sender);
    let wakes = Arc::new(Wakes(AtomicUsize::new(0)));
    let waker = Waker::from(wakes.clone());
    let mut cx = Context::from_waker(&waker);

    let mut call = control.latest_ping();
    assert_eq!(call.poll(&mut cx), None);
    assert_eq!(call.phase(), Phase::Sending);
    assert_eq!(wakes.0.load(Ordering::SeqCst), 0);
    let slot = match receiver.try_recv() {
        Ok(Command::LatestPing(slot)) => slot,
        _ => panic!("the actor expected a ping request"),
    };
    assert_eq!(wakes.0.load(Ordering::SeqCst), 1);
    assert_eq!(call.poll(&mut cx), None);
    assert_eq!(call.phase(), Phase::Awaiting);
    assert_eq!(slot.send(Ok(9)), Ok(()));
    assert_eq!(wakes.0.load(Ordering::SeqCst), 2);
    assert_eq!(call.poll(&mut cx), Some(Ok(9)));
}
