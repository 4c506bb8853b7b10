use vstd::prelude::*;
use async_channel::{Receiver, Sender};
use crate::outcome::{ActorError, Turn, enqueue_outcome, reply_outcome, reply_value};
use crate::operation::{Executor, Operation, apply};

verus! {

#[verifier::external_type_specification]
#[verifier::external_body]
#[verifier::reject_recursive_types(T)]
pub struct ExAcSender<T>(async_channel::Sender<T>);

#[verifier::external_type_specification]
#[verifier::external_body]
#[verifier::reject_recursive_types(T)]
pub struct ExAcReceiver<T>(async_channel::Receiver<T>);

/// Relies on async_channel::unbounded: a new channel, its two ends.
#[verifier::external_body]
fn channel_unbounded<T>() -> (Sender<T>, Receiver<T>) {
    async_channel::unbounded()
}

/// Relies on async_channel::bounded, which panics on a zero capacity.
#[verifier::external_body]
fn channel_bounded<T>(cap: usize) -> (Sender<T>, Receiver<T>)
    requires
        cap == 1,
{
    async_channel::bounded(cap)
}

/// Relies on Sender::try_send: `true` once the message is in the channel,
/// `false` when the channel is full or closed. It never waits.
#[verifier::external_body]
fn channel_try_send<T>(tx: &Sender<T>, msg: T) -> (sent: bool) {
    tx.try_send(msg).is_ok()
}

/// Relies on Receiver::recv_blocking: blocks the thread until a message
/// arrives (`Some`) or the channel is empty and closed (`None`).
#[verifier::external_body]
fn channel_recv_blocking<T>(rx: &Receiver<T>) -> (r: Option<T>) {
    rx.recv_blocking().ok()
}

/// Relies on Sender's Clone: another sender to the same channel.
#[verifier::external_body]
fn channel_sender_clone<T>(tx: &Sender<T>) -> (r: Sender<T>) {
    tx.clone()
}

/// What travels through a task-backed actor's mailbox.
#[verifier::reject_recursive_types(Op)]
pub enum Message<Op: Operation> {
    /// An operation whose result nobody waits for.
    Cast(Op),
    /// An operation and the channel its outcome goes back on.
    Call(Op, Sender<Option<Op::Output>>),
    /// A request that touches no state and is answered when reached.
    /// Its acknowledgement is `Some(())`.
    Flush(Sender<Option<()>>),
}

impl<Op: Operation> Message<Op> {
    /// The operation the message carries, if any.
    pub open spec fn op(&self) -> Option<Op> {
        match self {
            Message::Cast(op) => Some(*op),
            Message::Call(op, _) => Some(*op),
            Message::Flush(_) => None,
        }
    }
}

/// The handle of an actor served by a task of a cooperative scheduler.
///
/// It holds only the sending end of the mailbox; cloning it gives another
/// handle to the same actor.
#[verifier::reject_recursive_types(Op)]
pub struct Actor<Op: Operation> {
    tx: Sender<Message<Op>>,
}

/// The consumer of a task-backed actor's mailbox; it owns the state.
#[verifier::reject_recursive_types(Op)]
pub struct ActorProcessor<Op: Operation> {
    executor: Executor<Op>,
    rx: Receiver<Message<Op>>,
}

/// A reply that a caller has yet to collect.
#[verifier::reject_recursive_types(R)]
pub struct Pending<R> {
    rx: Receiver<Option<R>>,
}

impl<R> Pending<R> {
    /// The channel the reply comes on, for callers that await it; what it
    /// gives is read by `reply_outcome`.
    pub fn receiver(&self) -> (r: &Receiver<Option<R>>) {
        &self.rx
    }

    /// Blocks the thread until the reply comes; `ActorGone` when the
    /// processor dropped the request without answering. Not for use inside a
    /// task of the executor that serves the actor: await `receiver` there.
    pub fn wait(self) -> (r: Result<R, ActorError>)
        ensures
            exists|received: Option<Option<R>>| r == #[trigger] reply_value(received),
    {
        reply_outcome(channel_recv_blocking(&self.rx))
    }
}

impl<Op: Operation> ActorProcessor<Op> {
    /// The view of the state the actor was created with.
    pub closed spec fn initial(&self) -> <Op::State as View>::V {
        self.executor.initial()
    }

    /// The operations served so far, in the order they were dequeued.
    pub closed spec fn history(&self) -> Seq<Op> {
        self.executor.history()
    }

    /// The view of the state now.
    pub closed spec fn current(&self) -> <Op::State as View>::V {
        self.executor.current()
    }

    /// The state is the initial one with the served operations applied in order.
    pub closed spec fn wf(&self) -> bool {
        self.executor.wf()
    }

    /// The mailbox, for the task that awaits its next message.
    pub fn receiver(&self) -> (r: &Receiver<Message<Op>>) {
        &self.rx
    }

    /// `next` is this processor after serving `msg`, with `reply` owed:
    /// the message's operation, if any, has run and been recorded, a call is
    /// owed its operation's outcome on its own channel, and a flush is owed
    /// an acknowledgement on its channel.
    pub open spec fn serves(&self, next: Self, msg: Message<Op>, reply: MessageReply<Op>) -> bool {
        &&& next.wf()
        &&& next.initial() == self.initial()
        &&& next.history() == match msg.op() {
            Some(op) => self.history().push(op),
            None => self.history(),
        }
        &&& next.current() == match msg.op() {
            Some(op) => apply::<Op>(op, self.current()),
            None => self.current(),
        }
        &&& match msg {
            Message::Cast(op) => reply == if op.succeeds(self.current()) {
                MessageReply::<Op>::CastDone
            } else {
                MessageReply::<Op>::CastFailed
            },
            Message::Call(op, tx) => match reply {
                MessageReply::Outcome(to, out) => to == tx && (out is Some <==> op.succeeds(
                    self.current(),
                )) && (out is Some ==> out->Some_0@ == op.result(self.current())),
                _ => false,
            },
            Message::Flush(tx) => reply == MessageReply::<Op>::Ack(tx),
        }
    }

    /// Serves one message with exclusive access to the state, and returns
    /// what is owed to its sender.
    pub fn serve(&mut self, msg: Message<Op>) -> (r: MessageReply<Op>)
        requires
            old(self).wf(),
        ensures
            old(self).serves(*final(self), msg, r),
    {
        match msg {
            Message::Cast(op) => {
                match self.executor.run(op) {
                    Some(_) => MessageReply::CastDone,
                    None => MessageReply::CastFailed,
                }
            },
            Message::Call(op, tx) => {
                let out = self.executor.run(op);
                MessageReply::Outcome(tx, out)
            },
            Message::Flush(tx) => MessageReply::Ack(tx),
        }
    }

    /// Serves one message and sends what is owed.
    ///
    /// Every message that reaches the processor is served, including those
    /// queued before the last handle went: the mailbox drains before the
    /// processor stops. A message is discarded unserved only when the
    /// processor itself is dropped, and a caller waiting on it then gets
    /// `ActorGone`.
    pub fn handle(&mut self, msg: Message<Op>) -> (r: Turn)
        requires
            old(self).wf(),
        ensures
            exists|reply: MessageReply<Op>| #[trigger]
                old(self).serves(*final(self), msg, reply) && r == reply.turn(),
    {
        let reply = self.serve(msg);
        reply.deliver()
    }
}

/// What serving an message leaves owed to its sender.
#[verifier::reject_recursive_types(Op)]
pub enum MessageReply<Op: Operation> {
    /// A cast ran; nobody waits for it.
    CastDone,
    /// A cast's operation failed; nobody waits for it, so it is reported.
    CastFailed,
    /// A call's outcome (`None`: the operation failed), for its channel.
    Outcome(Sender<Option<Op::Output>>, Option<Op::Output>),
    /// A flush's acknowledgement, for its channel.
    Ack(Sender<Option<()>>),
}

impl<Op: Operation> MessageReply<Op> {
    /// What the processor's turn reports for this reply.
    pub open spec fn turn(&self) -> Turn {
        match self {
            MessageReply::CastFailed => Turn::CastFailed,
            _ => Turn::Served,
        }
    }

    /// Sends the reply on its channel, if it has one. A caller that has
    /// stopped waiting is no concern of the processor's.
    pub fn deliver(self) -> (r: Turn)
        ensures
            r == self.turn(),
    {
        match self {
            MessageReply::CastDone => Turn::Served,
            MessageReply::CastFailed => Turn::CastFailed,
            MessageReply::Outcome(tx, out) => {
                let _ = channel_try_send(&tx, out);
                Turn::Served
            },
            MessageReply::Ack(tx) => {
                let _ = channel_try_send(&tx, Some(()));
                Turn::Served
            },
        }
    }
}

impl<Op: Operation> Actor<Op> {
    /// Creates an actor over `state`: the handle, and the processor that a
    /// task is to drive. Nothing runs until a message arrives.
    pub fn new(state: Op::State) -> (r: (Self, ActorProcessor<Op>))
        ensures
            r.1.wf(),
            r.1.initial() == state@,
            r.1.current() == state@,
            r.1.history() == Seq::<Op>::empty(),
    {
        let (tx, rx) = channel_unbounded();
        (Actor { tx }, ActorProcessor { executor: Executor::new(state), rx })
    }

    /// Creates an actor over the state type's default value; runs nothing.
    pub fn new_default() -> (r: (Self, ActorProcessor<Op>))
        where
            Op::State: Default,
        ensures
            r.1.wf(),
            r.1.current() == r.1.initial(),
            r.1.history() == Seq::<Op>::empty(),
    {
        Self::new(Op::State::default())
    }

    /// Queues `op` and returns without waiting for it to run.
    pub fn cast(&self, op: Op) -> (r: Result<(), ActorError>)
        ensures
            r is Ok || r == Err::<(), ActorError>(ActorError::EnqueueFailed),
    {
        enqueue_outcome(channel_try_send(&self.tx, Message::Cast(op)))
    }

    /// Queues `op` with a reply channel of its own; the outcome is collected
    /// from what is returned.
    pub fn call(&self, op: Op) -> (r: Result<Pending<Op::Output>, ActorError>)
        ensures
            r is Ok || r == Err::<Pending<Op::Output>, ActorError>(ActorError::EnqueueFailed),
    {
        let (reply_tx, reply_rx) = channel_bounded(1);
        match enqueue_outcome(channel_try_send(&self.tx, Message::Call(op, reply_tx))) {
            Err(e) => Err(e),
            Ok(()) => Ok(Pending { rx: reply_rx }),
        }
    }

    /// Queues a request that is answered once every message queued earlier
    /// through this handle has been served.
    pub fn flush(&self) -> (r: Result<Pending<()>, ActorError>)
        ensures
            r is Ok || r == Err::<Pending<()>, ActorError>(ActorError::EnqueueFailed),
    {
        let (reply_tx, reply_rx) = channel_bounded(1);
        match enqueue_outcome(channel_try_send(&self.tx, Message::Flush(reply_tx))) {
            Err(e) => Err(e),
            Ok(()) => Ok(Pending { rx: reply_rx }),
        }
    }
}

impl<Op: Operation> Clone for Actor<Op> {
    /// Another handle to the same actor; no new actor, no copy of the state.
    fn clone(&self) -> (r: Self) {
        Actor { tx: channel_sender_clone(&self.tx) }
    }
}

} // verus!
