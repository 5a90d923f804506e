use poll_promise::{tick, tick_local, Poll, Promise, RecvOutcome, SenderDropped, TaskType, Ticked};

#[test]
fn from_ready_is_ready_at_once() {
    let mut promise = Promise::from_ready(7u32);
    assert_eq!(promise.ready(), Ok(Some(&7)));
    assert_eq!(promise.poll(), Ok(Poll::Ready(&7)));
    assert_eq!(promise.task_type(), TaskType::Other);
    assert_eq!(promise.block_until_ready(), Ok(&7));
    assert_eq!(promise.block_and_take(), Ok(7));
}

#[test]
fn from_ready_try_take_gives_the_value() {
    let promise = Promise::from_ready(String::from("done"));
    match promise.try_take() {
        Ok(Ok(value)) => assert_eq!(value, "done"),
        _ => panic!("a ready promise must give its value"),
    }
}

#[test]
fn new_promise_is_pending_until_sent() {
    let (sender, mut promise) = Promise::<u32>::new();
    assert_eq!(promise.task_type(), TaskType::Other);
    assert_eq!(promise.ready(), Ok(None));
    assert_eq!(promise.poll(), Ok(Poll::Pending));
    sender.send(42);
    assert_eq!(promise.ready(), Ok(Some(&42)));
    // Once ready, it stays ready with the same value.
    assert_eq!(promise.poll(), Ok(Poll::Ready(&42)));
    assert_eq!(promise.block_and_take(), Ok(42));
}

#[test]
fn try_take_gives_back_a_pending_promise() {
    let (sender, promise) = Promise::<u32>::new();
    let promise = match promise.try_take() {
        Ok(Err(promise)) => promise,
        _ => panic!("nothing was sent yet"),
    };
    sender.send(3);
    match promise.try_take() {
        Ok(Ok(value)) => assert_eq!(value, 3),
        _ => panic!("the value was sent"),
    }
}

#[test]
fn block_until_ready_waits_for_the_sent_value() {
    let (sender, mut promise) = Promise::<u64>::new();
    sender.send(11);
    assert_eq!(promise.block_until_ready(), Ok(&11));
    assert_eq!(promise.ready(), Ok(Some(&11)));
}

#[test]
fn dropped_sender_is_reported() {
    let (sender, mut promise) = Promise::<u32>::new();
    drop(sender);
    assert_eq!(promise.ready(), Err(SenderDropped));
    assert_eq!(promise.poll(), Err(SenderDropped));
    assert_eq!(promise.block_until_ready(), Err(SenderDropped));
    assert!(matches!(promise.try_take(), Err(SenderDropped)));
}

#[test]
fn dropped_sender_fails_block_and_take() {
    let (sender, promise) = Promise::<u32>::new();
    drop(sender);
    assert_eq!(promise.block_and_take(), Err(SenderDropped));
}

#[test]
fn value_sent_before_the_sender_drops_still_arrives() {
    let (sender, mut promise) = Promise::<u32>::new();
    sender.send(5);
    assert_eq!(promise.block_until_ready_mut(), Ok(&mut 5));
}

#[test]
fn send_to_a_dropped_promise_does_nothing() {
    let (sender, promise) = Promise::<u32>::new();
    drop(promise);
    sender.send(1);
}

#[test]
fn ready_mut_writes_into_the_promise() {
    let mut promise = Promise::from_ready(1u32);
    if let Ok(Some(value)) = promise.ready_mut() {
        *value += 10;
    }
    assert_eq!(promise.ready(), Ok(Some(&11)));
    if let Ok(Poll::Ready(value)) = promise.poll_mut() {
        *value *= 2;
    }
    if let Ok(value) = promise.block_until_ready_mut() {
        *value += 1;
    }
    assert_eq!(promise.block_and_take(), Ok(23));
}

#[test]
fn settle_with_a_received_value_makes_it_ready() {
    let (_sender, mut promise) = Promise::<u32>::new();
    assert_eq!(promise.settle(RecvOutcome::Received(9)), Ok(true));
    assert_eq!(promise.poll(), Ok(Poll::Ready(&9)));
}

#[test]
fn settle_with_an_empty_channel_stays_pending() {
    let (_sender, mut promise) = Promise::<u32>::new();
    assert_eq!(promise.settle(RecvOutcome::Empty), Ok(false));
    assert_eq!(promise.ready(), Ok(None));
}

#[test]
fn settle_with_a_disconnected_channel_reports_it() {
    let (_sender, mut promise) = Promise::<u32>::new();
    assert_eq!(promise.settle(RecvOutcome::Disconnected), Err(SenderDropped));
}

#[test]
fn settle_on_a_ready_promise_keeps_its_value() {
    let mut promise = Promise::from_ready(4u32);
    assert_eq!(promise.settle(RecvOutcome::Received(8)), Ok(true));
    assert_eq!(promise.settle(RecvOutcome::Disconnected), Ok(true));
    assert_eq!(promise.settle(RecvOutcome::Empty), Ok(true));
    assert_eq!(promise.block_and_take(), Ok(4));
}

#[test]
fn pending_answer_leaves_the_promise_pending() {
    let (sender, mut promise) = Promise::<u32>::new();
    assert_eq!(promise.poll(), Ok(Poll::Pending));
    assert_eq!(promise.poll(), Ok(Poll::Pending));
    sender.send(2);
    assert_eq!(promise.poll(), Ok(Poll::Ready(&2)));
}

#[test]
fn attached_async_task_runs_when_ticked() {
    let executor = smol::Executor::new();
    let (sender, mut promise) = Promise::<i32>::new();
    let task = executor.spawn(async move { sender.send(0) });
    promise.attach_task(TaskType::Async, task);
    assert_eq!(promise.task_type(), TaskType::Async);
    assert_eq!(promise.poll(), Ok(Poll::Pending));
    assert!(tick(&executor));
    assert_eq!(promise.block_and_take(), Ok(0));
}

#[test]
fn tick_without_tasks_runs_nothing() {
    let executor = smol::Executor::new();
    let local_executor = smol::LocalExecutor::new();
    assert!(!tick(&executor));
    assert!(!tick_local(&local_executor));
}

#[test]
fn lib_it_runs_async_threaded() {
    let executor = smol::Executor::new();
    let local_executor = smol::LocalExecutor::new();
    let (sender, mut promise) = Promise::<i32>::new();
    let task = executor.spawn(async move { sender.send(0) });
    promise.attach_task(TaskType::Async, task);
    while promise.poll_ticked(&executor, &local_executor).0 == Ok(Poll::Pending) {}
    assert_eq!(promise.block_and_take(), Ok(0));
}

#[test]
fn it_runs_locally() {
    let executor = smol::Executor::new();
    let local_executor = smol::LocalExecutor::new();
    let (sender, mut promise) = Promise::<i32>::new();
    let task = local_executor.spawn(async move { sender.send(0) });
    promise.attach_task(TaskType::Local, task);
    assert_eq!(promise.task_type(), TaskType::Local);
    while promise.poll_ticked(&executor, &local_executor).0 == Ok(Poll::Pending) {}
    assert_eq!(promise.block_and_take(), Ok(0));
}

#[test]
fn lib_it_runs_background() {
    let executor = smol::Executor::new();
    let (sender, mut promise) = Promise::<i32>::new();
    let task = executor.spawn(async move {
        let mut e = 0;
        for i in -10000..0 {
            e += i;
        }
        sender.send(e)
    });
    promise.attach_task(TaskType::Async, task);
    tick(&executor);
    assert!(promise.ready().unwrap().is_some(), "was not finished");
}

#[test]
fn it_can_block() {
    let local_executor = smol::LocalExecutor::new();
    let (sender, mut promise) = Promise::<()>::new();
    let task = local_executor.spawn(async move {
        // Block the executor's thread for a second, as a slow task would.
        let start = std::time::Instant::now();
        while start.elapsed() < std::time::Duration::from_secs(1) {}
        sender.send(())
    });
    promise.attach_task(TaskType::Local, task);
    tick_local(&local_executor);
    assert!(promise.ready().unwrap().is_some(), "was not finished");
}

#[test]
fn poll_ticked_of_other_task_does_not_tick() {
    let executor = smol::Executor::new();
    let local_executor = smol::LocalExecutor::new();
    let (sender, mut promise) = Promise::<i32>::new();
    let task = executor.spawn(async move { sender.send(1) });
    // A task of type `Other` is driven by someone else: polling does not tick.
    promise.attach_task(TaskType::Other, task);
    assert_eq!(promise.poll_ticked(&executor, &local_executor).0, Ok(Poll::Pending));
    assert!(tick(&executor));
    assert_eq!(promise.poll_ticked(&executor, &local_executor).0, Ok(Poll::Ready(&1)));
}

#[test]
fn abort_cancels_the_task() {
    let executor = smol::Executor::new();
    let ran = std::sync::Arc::new(std::sync::atomic::AtomicBool::new(false));
    let ran_in_task = ran.clone();
    let (sender, mut promise) = Promise::<i32>::new();
    let task = executor.spawn(async move {
        ran_in_task.store(true, std::sync::atomic::Ordering::SeqCst);
        sender.send(1)
    });
    promise.attach_task(TaskType::Async, task);
    promise.abort();
    while tick(&executor) {}
    // The cancelled task never ran its body.
    assert!(!ran.load(std::sync::atomic::Ordering::SeqCst));
}

#[test]
fn try_take_gives_back_the_same_task() {
    let executor = smol::Executor::new();
    let ran = std::sync::Arc::new(std::sync::atomic::AtomicBool::new(false));
    let ran_in_task = ran.clone();
    let (sender, mut promise) = Promise::<i32>::new();
    let task = executor.spawn(async move {
        ran_in_task.store(true, std::sync::atomic::Ordering::SeqCst);
        sender.send(1)
    });
    promise.attach_task(TaskType::Async, task);
    let promise = match promise.try_take() {
        Ok(Err(promise)) => promise,
        _ => panic!("the task has not run yet"),
    };
    assert_eq!(promise.task_type(), TaskType::Async);
    promise.abort();
    while tick(&executor) {}
    assert!(!ran.load(std::sync::atomic::Ordering::SeqCst));
}

#[test]
fn poll_ticked_ticks_the_executor_of_the_task() {
    let executor = smol::Executor::new();
    let local_executor = smol::LocalExecutor::new();

    let (sender, mut promise) = Promise::<i32>::new();
    promise.attach_task(TaskType::Async, executor.spawn(async move { sender.send(0) }));
    let (answer, ticked) = promise.poll_ticked(&executor, &local_executor);
    assert_eq!(answer, Ok(Poll::Ready(&0)));
    assert!(matches!(ticked, Ticked::Shared(_)));
    assert!(ticked.ran_a_task());

    let (sender, mut promise) = Promise::<i32>::new();
    promise.attach_task(TaskType::Local, local_executor.spawn(async move { sender.send(1) }));
    let (answer, ticked) = promise.poll_ticked(&executor, &local_executor);
    assert_eq!(answer, Ok(Poll::Ready(&1)));
    assert!(matches!(ticked, Ticked::Local(_)));
    assert!(ticked.ran_a_task());

    // A ready promise ticks nothing.
    let mut promise = Promise::from_ready(2);
    let (answer, ticked) = promise.poll_ticked(&executor, &local_executor);
    assert_eq!(answer, Ok(Poll::Ready(&2)));
    assert!(matches!(ticked, Ticked::Nothing));
    assert!(!ticked.ran_a_task());
}
