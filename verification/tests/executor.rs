use futures::channel::mpsc;
use futures::executor::block_on;
use futures::future::{join, join3, poll_fn};
use futures::{FutureExt, StreamExt};
use std::task::Poll;
use yamux_control::{Command, Control, Error, StreamHandle};

fn to_poll<T>(out: Option<T>) -> Poll<T> {
    match out {
        Some(value) => Poll::Ready(value),
        None => Poll::Pending,
    }
}

fn answer(command: Option<Command>) {
    match command {
        Some(Command::OpenStream(slot)) => {
            let _ = slot.send(Ok(StreamHandle::new(11)));
        },
        Some(Command::LatestPing(slot)) => {
            let _ = slot.send(Ok(42));
        },
        Some(Command::Shutdown(slot)) => {
            let _ = slot.send(());
        },
        None => {},
    }
}

#[test]
fn a_task_is_woken_for_every_step_of_its_request() {
    let (sender, receiver) = mpsc::channel::<Command>(0);
    let mut control = Control::new(sender);

    let mut call = control.latest_ping();
    let caller = poll_fn(|cx| to_poll(call.poll(cx)));
    let actor = receiver.into_future().map(|(command, receiver)| {
        answer(command);
        receiver
    });
    let (result, receiver) = block_on(join(caller, actor));
    assert_eq!(result, Ok(42));
    drop(call);

    let mut call = control.open_stream();
    let caller = poll_fn(|cx| to_poll(call.poll(cx)));
    let actor = receiver.into_future().map(|(command, receiver)| {
        answer(command);
        receiver
    });
    let (result, receiver) = block_on(join(caller, actor));
    assert_eq!(result, Ok(StreamHandle::new(11)));
    drop(call);

    let mut call = control.close();
    let caller = poll_fn(|cx| to_poll(call.poll(cx)));
    let actor = receiver.into_future().map(|(command, receiver)| {
        answer(command);
        drop(receiver);
    });
    let (result, ()) = block_on(join(caller, actor));
    assert_eq!(result, ());
    drop(call);

    let mut call = control.open_stream();
    assert_eq!(block_on(poll_fn(|cx| to_poll(call.poll(cx)))), Err(Error::SessionShutdown));
}

#[test]
fn two_handles_are_served_one_after_the_other() {
    let (sender, receiver) = mpsc::channel::<Command>(0);
    let mut first_handle = Control::new(sender);
    let mut second_handle = first_handle.clone();

    let mut first = first_handle.open_stream();
    let mut second = second_handle.latest_ping();
    let first_caller = poll_fn(|cx| to_poll(first.poll(cx)));
    let second_caller = poll_fn(|cx| to_poll(second.poll(cx)));
    let actor = receiver.take(2).for_each(|command| {
        answer(Some(command));
        futures::future::ready(())
    });
    let (stream, ping, ()) = block_on(join3(first_caller, second_caller, actor));
    assert_eq!(stream, Ok(StreamHandle::new(11)));
    assert_eq!(ping, Ok(42));
}

#[test]
fn a_dying_actor_wakes_the_waiting_caller() {
    let (sender, receiver) = mpsc::channel::<Command>(4);
    let mut control = Control::new(sender);

    let mut call = control.open_stream();
    let caller = poll_fn(|cx| to_poll(call.poll(cx)));
    let actor = receiver.into_future().map(|(command, receiver)| {
        drop(command);
        drop(receiver);
    });
    let (result, ()) = block_on(join(caller, actor));
    assert_eq!(result, Err(Error::SessionShutdown));
}
