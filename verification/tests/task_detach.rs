use guarden::task::{
    detach_context, finish_poll, is_terminated, new_context, reclaim_context, take_for_poll,
    TaskSpawner,
};
use std::cell::Cell;
use std::future::{poll_fn, Future};
use std::pin::Pin;
use std::task::{Context, Poll, Waker};

fn poll_once<F: Future + ?Sized>(future: Pin<&mut F>) -> Poll<F::Output> {
    future.poll(&mut Context::from_waker(Waker::noop()))
}

#[test]
fn unit_spawner_hands_the_task_back() {
    let mut task = ().spawn(Box::pin(async { 42 }));
    assert_eq!(poll_once(task.as_mut()), Poll::Ready(42));
}

#[test]
fn closure_spawner_receives_the_task() {
    let mut received = None;
    let spawner = |task: Pin<Box<std::future::Ready<u8>>>| {
        received = Some(task);
        "spawned"
    };
    assert_eq!(spawner.spawn(Box::pin(std::future::ready(9u8))), "spawned");
    let mut task = received.unwrap();
    assert_eq!(poll_once(task.as_mut()), Poll::Ready(9));
}

#[test]
fn custom_spawner_resumes_pending_work_without_a_runtime() {
    let polled = Cell::new(false);
    let future = async {
        poll_fn(|cx| {
            if polled.replace(true) {
                Poll::Ready(42)
            } else {
                cx.waker().wake_by_ref();
                Poll::Pending
            }
        })
        .await
    };
    let mut queued = None;
    let mut context = new_context(|task| queued = Some(task), future);
    // One inline poll, which is pending.
    let mut task = take_for_poll(&mut context);
    let poll = poll_once(task.as_mut());
    assert_eq!(poll, Poll::Pending);
    finish_poll(&mut context, task, poll.is_pending());
    assert!(!is_terminated(&context));
    // The wait is dropped: the unfinished future goes to the spawner.
    assert!(detach_context(context).is_some());

    let mut task = queued.expect("spawner must retain the unfinished future");
    assert_eq!(poll_once(task.as_mut()), Poll::Ready(42));
}

#[test]
fn await_completed_task_does_not_detach() {
    let spawn_count = Cell::new(0usize);
    let mut context = new_context(
        |_| {
            spawn_count.set(spawn_count.get() + 1);
        },
        async { 7usize },
    );
    let mut task = take_for_poll(&mut context);
    let poll = poll_once(task.as_mut());
    finish_poll(&mut context, task, poll.is_pending());
    assert!(is_terminated(&context));
    assert!(detach_context(context).is_none());

    assert_eq!(poll, Poll::Ready(7));
    assert_eq!(spawn_count.get(), 0);
}

#[test]
fn drop_without_await_and_runs_once() {
    let spawn_count = Cell::new(0usize);
    let mut detached = None;
    let context = new_context(
        |f| {
            spawn_count.set(spawn_count.get() + 1);
            detached = Some(f);
        },
        async { 42usize },
    );
    assert!(detach_context(context).is_some());

    let mut task = detached.expect("detached task should finish");
    assert_eq!(poll_once(task.as_mut()), Poll::Ready(42));
    assert_eq!(spawn_count.get(), 1);
}

#[test]
fn slot_emptied_by_an_interrupted_poll_is_not_detached() {
    // A poll that panics never puts the future back: the slot stays empty,
    // so dropping the task afterwards spawns nothing.
    let detach_count = Cell::new(0usize);
    let mut context = new_context(
        |_| {
            detach_count.set(detach_count.get() + 1);
        },
        async { 1u8 },
    );
    let task = take_for_poll(&mut context);
    drop(task);
    assert!(is_terminated(&context));
    assert!(detach_context(context).is_none());
    assert_eq!(detach_count.get(), 0);
}

#[test]
fn reclaim_returns_the_future_without_spawning() {
    let spawn_count = Cell::new(0usize);
    let context = new_context(
        |_: ()| {
            spawn_count.set(spawn_count.get() + 1);
        },
        async { 5u32 },
    );
    let mut task = reclaim_context(context);
    assert_eq!(poll_once(task.as_mut()), Poll::Ready(5));
    assert_eq!(spawn_count.get(), 0);
}

#[test]
fn pending_polls_keep_the_future_until_ready() {
    let remaining = Cell::new(2u8);
    let future = poll_fn(|_| {
        if remaining.get() == 0 {
            Poll::Ready("done")
        } else {
            remaining.set(remaining.get() - 1);
            Poll::Pending
        }
    });
    let mut context = new_context((), future);
    let mut outcomes = Vec::new();
    while !is_terminated(&context) {
        let mut task = take_for_poll(&mut context);
        let poll = poll_once(task.as_mut());
        finish_poll(&mut context, task, poll.is_pending());
        outcomes.push(poll);
    }
    assert_eq!(outcomes, vec![Poll::Pending, Poll::Pending, Poll::Ready("done")]);
    assert!(detach_context(context).is_none());
}
