use cooper::{
    Actor, ActorError, ActorProcessor, CounterOp, Envelope, EnvelopeReply, ListOp, Operation,
    ThreadedActor, ThreadedProcessor, Turn, enqueue_outcome, reply_outcome,
};

fn start_threaded<Op>(mut processor: ThreadedProcessor<Op>)
where
    Op: Operation + Send + 'static,
    Op::State: Send + 'static,
    Op::Output: Send + 'static,
{
    smol::unblock(move || while processor.step() != Turn::Closed {}).detach();
}

fn start_cooperative<Op>(mut processor: ActorProcessor<Op>)
where
    Op: Operation + Send + 'static,
    Op::State: Send + 'static,
    Op::Output: Send + 'static,
{
    smol::spawn(async move {
        loop {
            let next = processor.receiver().recv().await;
            match next {
                Ok(msg) => {
                    processor.handle(msg);
                }
                Err(_) => break,
            }
        }
    })
    .detach();
}

#[test]
fn threaded_casts_run_in_enqueue_order() {
    let (actor, processor) = ThreadedActor::<ListOp>::new(Vec::new());
    start_threaded(processor);
    assert_eq!(actor.cast(ListOp::Append(1)), Ok(()));
    assert_eq!(actor.cast(ListOp::Append(2)), Ok(()));
    assert_eq!(actor.cast(ListOp::Append(3)), Ok(()));
    assert_eq!(actor.call(ListOp::Snapshot), Ok(vec![1, 2, 3]));
}

#[test]
fn cooperative_casts_run_in_enqueue_order() {
    let (actor, processor) = Actor::<ListOp>::new(Vec::new());
    start_cooperative(processor);
    assert_eq!(actor.cast(ListOp::Append(1)), Ok(()));
    assert_eq!(actor.cast(ListOp::Append(2)), Ok(()));
    assert_eq!(actor.cast(ListOp::Append(3)), Ok(()));
    let pending = actor.call(ListOp::Snapshot).unwrap();
    assert_eq!(pending.wait(), Ok(vec![1, 2, 3]));
}

#[test]
fn threaded_concurrent_increments_lose_nothing() {
    let (actor, processor) = ThreadedActor::<CounterOp>::new(0);
    start_threaded(processor);
    let tasks: Vec<_> = (0..100)
        .map(|_| {
            let handle = actor.clone();
            smol::unblock(move || handle.call(CounterOp::Increment))
        })
        .collect();
    let mut ids: Vec<u64> = tasks
        .into_iter()
        .map(|t| smol::block_on(t).unwrap())
        .collect();
    ids.sort();
    assert_eq!(ids, (1..=100).collect::<Vec<u64>>());
    assert_eq!(actor.call(CounterOp::Get), Ok(100));
}

#[test]
fn cooperative_concurrent_increments_lose_nothing() {
    let (actor, processor) = Actor::<CounterOp>::new(0);
    start_cooperative(processor);
    let tasks: Vec<_> = (0..100)
        .map(|_| {
            let handle = actor.clone();
            smol::spawn(async move {
                let pending = handle.call(CounterOp::Increment).unwrap();
                reply_outcome(pending.receiver().recv().await.ok())
            })
        })
        .collect();
    for t in tasks {
        assert!(smol::block_on(t).is_ok());
    }
    assert_eq!(actor.call(CounterOp::Get).unwrap().wait(), Ok(100));
}

#[test]
fn threaded_calls_yield_sequential_ids() {
    let (actor, processor) = ThreadedActor::<CounterOp>::new(0);
    start_threaded(processor);
    assert_eq!(actor.call(CounterOp::Increment), Ok(1));
    assert_eq!(actor.call(CounterOp::Increment), Ok(2));
    assert_eq!(actor.call(CounterOp::Increment), Ok(3));
}

#[test]
fn cooperative_calls_yield_sequential_ids() {
    let (actor, processor) = Actor::<CounterOp>::new_default();
    start_cooperative(processor);
    assert_eq!(actor.call(CounterOp::Increment).unwrap().wait(), Ok(1));
    assert_eq!(actor.call(CounterOp::Increment).unwrap().wait(), Ok(2));
    assert_eq!(actor.call(CounterOp::Increment).unwrap().wait(), Ok(3));
}

#[test]
fn threaded_flush_is_a_barrier() {
    let (actor, processor) = ThreadedActor::<ListOp>::new(Vec::new());
    start_threaded(processor);
    assert_eq!(actor.cast(ListOp::Append(10)), Ok(()));
    assert_eq!(actor.flush(), Ok(()));
    assert_eq!(actor.cast(ListOp::Append(20)), Ok(()));
    let items = actor.call(ListOp::Snapshot).unwrap();
    assert_eq!(items, vec![10, 20]);
}

#[test]
fn cooperative_flush_is_a_barrier() {
    let (actor, processor) = Actor::<ListOp>::new(Vec::new());
    start_cooperative(processor);
    assert_eq!(actor.cast(ListOp::Append(10)), Ok(()));
    assert_eq!(actor.flush().unwrap().wait(), Ok(()));
    assert_eq!(actor.cast(ListOp::Append(20)), Ok(()));
    assert_eq!(actor.call(ListOp::Snapshot).unwrap().wait(), Ok(vec![10, 20]));
}

#[test]
fn processor_serves_queued_envelopes_then_closes() {
    let (actor, mut processor) = ThreadedActor::<ListOp>::new(vec![5]);
    assert_eq!(actor.cast(ListOp::Append(6)), Ok(()));
    drop(actor);
    assert_eq!(processor.step(), Turn::Served);
    assert_eq!(processor.step(), Turn::Closed);
    assert_eq!(processor.step(), Turn::Closed);
}

#[test]
fn threaded_requests_to_a_stopped_actor_fail() {
    let (actor, processor) = ThreadedActor::<CounterOp>::new(0);
    drop(processor);
    assert_eq!(actor.cast(CounterOp::Increment), Err(ActorError::EnqueueFailed));
    assert_eq!(actor.call(CounterOp::Get), Err(ActorError::EnqueueFailed));
    assert_eq!(actor.flush(), Err(ActorError::EnqueueFailed));
}

#[test]
fn cooperative_requests_to_a_stopped_actor_fail() {
    let (actor, processor) = Actor::<CounterOp>::new(0);
    drop(processor);
    assert_eq!(actor.cast(CounterOp::Increment), Err(ActorError::EnqueueFailed));
    assert!(matches!(actor.call(CounterOp::Get), Err(ActorError::EnqueueFailed)));
    assert!(matches!(actor.flush(), Err(ActorError::EnqueueFailed)));
}

#[test]
fn call_in_flight_at_termination_reports_actor_gone() {
    let (actor, processor) = Actor::<CounterOp>::new(0);
    let pending = actor.call(CounterOp::Increment).unwrap();
    drop(actor);
    drop(processor);
    assert_eq!(pending.wait(), Err(ActorError::ActorGone));
}

#[test]
fn construction_and_cloning_run_nothing() {
    let (actor, processor) = ThreadedActor::<ListOp>::new(vec![7]);
    let other = actor.clone();
    let third = other.clone();
    start_threaded(processor);
    assert_eq!(third.call(ListOp::Snapshot), Ok(vec![7]));
    let (counter, processor) = ThreadedActor::<CounterOp>::new_default();
    let _copy = counter.clone();
    start_threaded(processor);
    assert_eq!(counter.call(CounterOp::Get), Ok(0));
}

#[test]
fn failed_call_leaves_state_untouched() {
    let (actor, processor) = ThreadedActor::<CounterOp>::new(u64::MAX);
    start_threaded(processor);
    assert_eq!(actor.call(CounterOp::Increment), Err(ActorError::OperationFailed));
    assert_eq!(actor.call(CounterOp::Get), Ok(u64::MAX));
}

#[test]
fn failed_cast_is_reported_by_the_processor() {
    let (actor, mut processor) = ThreadedActor::<CounterOp>::new(u64::MAX - 1);
    assert_eq!(actor.cast(CounterOp::Increment), Ok(()));
    assert_eq!(actor.cast(CounterOp::Increment), Ok(()));
    assert_eq!(processor.step(), Turn::Served);
    assert_eq!(processor.step(), Turn::CastFailed);
    start_threaded(processor);
    assert_eq!(actor.call(CounterOp::Get), Ok(u64::MAX));
}

#[test]
fn operations_execute_directly() {
    let mut n: u64 = 41;
    assert_eq!(CounterOp::Increment.execute(&mut n), Some(42));
    assert_eq!(n, 42);
    assert_eq!(CounterOp::Get.execute(&mut n), Some(42));
    let mut list: Vec<u64> = vec![1];
    assert_eq!(ListOp::Append(2).execute(&mut list), Some(vec![]));
    assert_eq!(ListOp::Snapshot.execute(&mut list), Some(vec![1, 2]));
}

#[test]
fn outcomes_map_to_errors() {
    assert_eq!(enqueue_outcome(true), Ok(()));
    assert_eq!(enqueue_outcome(false), Err(ActorError::EnqueueFailed));
    assert_eq!(reply_outcome::<u64>(Some(Some(4))), Ok(4));
    assert_eq!(reply_outcome::<u64>(Some(None)), Err(ActorError::OperationFailed));
    assert_eq!(reply_outcome::<u64>(None), Err(ActorError::ActorGone));
}

#[test]
fn serve_owes_each_sender_its_reply() {
    let (actor, mut processor) = ThreadedActor::<CounterOp>::new(u64::MAX - 1);
    drop(actor);
    let (tx, rx) = crossbeam_channel::bounded(1);
    match processor.serve(Envelope::Call(CounterOp::Increment, tx)) {
        EnvelopeReply::Outcome(to, out) => {
            assert_eq!(out, Some(u64::MAX));
            assert_eq!(EnvelopeReply::<CounterOp>::Outcome(to, out).deliver(), Turn::Served);
        }
        _ => panic!("a call is owed its outcome"),
    }
    assert_eq!(rx.recv(), Ok(Some(u64::MAX)));
    let (tx, rx) = crossbeam_channel::bounded(1);
    match processor.serve(Envelope::Call(CounterOp::Increment, tx)) {
        EnvelopeReply::Outcome(to, out) => {
            assert_eq!(out, None);
            assert_eq!(EnvelopeReply::<CounterOp>::Outcome(to, out).deliver(), Turn::Served);
        }
        _ => panic!("a call is owed its outcome"),
    }
    assert_eq!(reply_outcome(rx.recv().ok()), Err(ActorError::OperationFailed));
    assert!(matches!(processor.serve(Envelope::Cast(CounterOp::Increment)), EnvelopeReply::CastFailed));
    assert!(matches!(processor.serve(Envelope::Cast(CounterOp::Get)), EnvelopeReply::CastDone));
    let (tx, rx) = crossbeam_channel::bounded(1);
    let ack = processor.serve(Envelope::Flush(tx));
    assert_eq!(ack.deliver(), Turn::Served);
    assert_eq!(rx.recv(), Ok(()));
    assert_eq!(processor.step(), Turn::Closed);
}
