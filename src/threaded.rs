use vstd::prelude::*;
use crossbeam_channel::{Receiver, Sender};
use crate::outcome::{ActorError, Turn, enqueue_outcome, reply_outcome, reply_value};
use crate::operation::{Executor, Operation, apply};

verus! {

#[verifier::external_type_specification]
#[verifier::external_body]
#[verifier::reject_recursive_types(T)]
pub struct ExCbSender<T>(crossbeam_channel::Sender<T>);

#[verifier::external_type_specification]
#[verifier::external_body]
#[verifier::reject_recursive_types(T)]
pub struct ExCbReceiver<T>(crossbeam_channel::Receiver<T>);

/// Relies on crossbeam_channel::unbounded: a new channel, its two ends.
#[verifier::external_body]
fn channel_unbounded<T>() -> (Sender<T>, Receiver<T>) {
    crossbeam_channel::unbounded()
}

/// Relies on crossbeam_channel::bounded, which panics only when the capacity
/// is too large to allocate.
#[verifier::external_body]
fn channel_bounded<T>(cap: usize) -> (Sender<T>, Receiver<T>)
    requires
        cap <= 1,
{
    crossbeam_channel::bounded(cap)
}

/// Relies on Sender::send: `true` once the message is in the channel, `false`
/// when every receiver is gone (the message is then dropped).
#[verifier::external_body]
fn channel_send<T>(tx: &Sender<T>, msg: T) -> (sent: bool) {
    tx.send(msg).is_ok()
}

/// Relies on Receiver::recv: blocks until a message arrives (`Some`) or the
/// channel is empty and every sender is gone (`None`).
#[verifier::external_body]
fn channel_recv<T>(rx: &Receiver<T>) -> (r: Option<T>) {
    rx.recv().ok()
}

/// Relies on Sender's Clone: another sender to the same channel.
#[verifier::external_body]
fn channel_sender_clone<T>(tx: &Sender<T>) -> (r: Sender<T>) {
    tx.clone()
}

/// What travels through a thread-backed actor's mailbox.
#[verifier::reject_recursive_types(Op)]
pub enum Envelope<Op: Operation> {
    /// An operation whose result nobody waits for.
    Cast(Op),
    /// An operation and the channel its outcome goes back on.
    Call(Op, Sender<Option<Op::Output>>),
    /// A request that touches no state and is answered when reached.
    Flush(Sender<()>),
}

impl<Op: Operation> Envelope<Op> {
    /// The operation the envelope carries, if any.
    pub open spec fn op(&self) -> Option<Op> {
        match self {
            Envelope::Cast(op) => Some(*op),
            Envelope::Call(op, _) => Some(*op),
            Envelope::Flush(_) => None,
        }
    }
}

/// The handle of an actor served by a dedicated OS thread.
///
/// It holds only the sending end of the mailbox; cloning it gives another
/// handle to the same actor.
#[verifier::reject_recursive_types(Op)]
pub struct ThreadedActor<Op: Operation> {
    tx: Sender<Envelope<Op>>,
}

/// The consumer of a thread-backed actor's mailbox; it owns the state.
#[verifier::reject_recursive_types(Op)]
pub struct ThreadedProcessor<Op: Operation> {
    executor: Executor<Op>,
    rx: Receiver<Envelope<Op>>,
}

impl<Op: Operation> ThreadedProcessor<Op> {
    /// The view of the state the actor was created with.
    pub closed spec fn initial(&self) -> <Op::State as View>::V {
        self.executor.initial()
    }

    /// The operations served so far, in the order they were dequeued.
    pub closed spec fn history(&self) -> Seq<Op> {
        self.executor.history()
    }

    /// The view of the state now.
    pub closed spec fn current(&self) -> <Op::State as View>::V {
        self.executor.current()
    }

    /// The state is the initial one with the served operations applied in order.
    pub closed spec fn wf(&self) -> bool {
        self.executor.wf()
    }

    /// `next` is this processor after serving `env`, with `reply` owed:
    /// the envelope's operation, if any, has run and been recorded, a call is
    /// owed its operation's outcome on its own channel, and a flush is owed
    /// an acknowledgement on its channel.
    pub open spec fn serves(&self, next: Self, env: Envelope<Op>, reply: EnvelopeReply<Op>) -> bool {
        &&& next.wf()
        &&& next.initial() == self.initial()
        &&& next.history() == match env.op() {
            Some(op) => self.history().push(op),
            None => self.history(),
        }
        &&& next.current() == match env.op() {
            Some(op) => apply::<Op>(op, self.current()),
            None => self.current(),
        }
        &&& match env {
            Envelope::Cast(op) => reply == if op.succeeds(self.current()) {
                EnvelopeReply::<Op>::CastDone
            } else {
                EnvelopeReply::<Op>::CastFailed
            },
            Envelope::Call(op, tx) => match reply {
                EnvelopeReply::Outcome(to, out) => to == tx && (out is Some <==> op.succeeds(
                    self.current(),
                )) && (out is Some ==> out->Some_0@ == op.result(self.current())),
                _ => false,
            },
            Envelope::Flush(tx) => reply == EnvelopeReply::<Op>::Ack(tx),
        }
    }

    /// Serves one envelope with exclusive access to the state, and returns
    /// what is owed to its sender.
    pub fn serve(&mut self, env: Envelope<Op>) -> (r: EnvelopeReply<Op>)
        requires
            old(self).wf(),
        ensures
            old(self).serves(*final(self), env, r),
    {
        match env {
            Envelope::Cast(op) => {
                match self.executor.run(op) {
                    Some(_) => EnvelopeReply::CastDone,
                    None => EnvelopeReply::CastFailed,
                }
            },
            Envelope::Call(op, tx) => {
                let out = self.executor.run(op);
                EnvelopeReply::Outcome(tx, out)
            },
            Envelope::Flush(tx) => EnvelopeReply::Ack(tx),
        }
    }

    /// Serves one envelope and sends what is owed.
    ///
    /// Every envelope that reaches the processor is served, including those
    /// queued before the last handle went: the mailbox drains before the
    /// processor stops. A envelope is discarded unserved only when the
    /// processor itself is dropped, and a caller waiting on it then gets
    /// `ActorGone`.
    pub fn handle(&mut self, env: Envelope<Op>) -> (r: Turn)
        requires
            old(self).wf(),
        ensures
            exists|reply: EnvelopeReply<Op>| #[trigger]
                old(self).serves(*final(self), env, reply) && r == reply.turn(),
    {
        let reply = self.serve(env);
        reply.deliver()
    }

    /// Waits for the next envelope and serves it, or reports that the
    /// mailbox is closed, in which case nothing changes.
    ///
    /// The mailbox closes once every handle is gone and it is empty: the
    /// envelopes that were queued before the last handle went are still
    /// served, in order. Only when the processor itself is dropped are
    /// queued envelopes discarded unserved, and their callers get `ActorGone`.
    pub fn step(&mut self) -> (r: Turn)
        requires
            old(self).wf(),
        ensures
            final(self).wf(),
            r == Turn::Closed ==> *final(self) == *old(self),
            r != Turn::Closed ==> exists|env: Envelope<Op>, reply: EnvelopeReply<Op>| #[trigger]
                old(self).serves(*final(self), env, reply) && r == reply.turn(),
    {
        match channel_recv(&self.rx) {
            Some(env) => self.handle(env),
            None => Turn::Closed,
        }
    }
}

/// What serving an envelope leaves owed to its sender.
#[verifier::reject_recursive_types(Op)]
pub enum EnvelopeReply<Op: Operation> {
    /// A cast ran; nobody waits for it.
    CastDone,
    /// A cast's operation failed; nobody waits for it, so it is reported.
    CastFailed,
    /// A call's outcome (`None`: the operation failed), for its channel.
    Outcome(Sender<Option<Op::Output>>, Option<Op::Output>),
    /// A flush's acknowledgement, for its channel.
    Ack(Sender<()>),
}

impl<Op: Operation> EnvelopeReply<Op> {
    /// What the processor's turn reports for this reply.
    pub open spec fn turn(&self) -> Turn {
        match self {
            EnvelopeReply::CastFailed => Turn::CastFailed,
            _ => Turn::Served,
        }
    }

    /// Sends the reply on its channel, if it has one. A caller that has
    /// stopped waiting is no concern of the processor's.
    pub fn deliver(self) -> (r: Turn)
        ensures
            r == self.turn(),
    {
        match self {
            EnvelopeReply::CastDone => Turn::Served,
            EnvelopeReply::CastFailed => Turn::CastFailed,
            EnvelopeReply::Outcome(tx, out) => {
                let _ = channel_send(&tx, out);
                Turn::Served
            },
            EnvelopeReply::Ack(tx) => {
                let _ = channel_send(&tx, ());
                Turn::Served
            },
        }
    }
}

impl<Op: Operation> ThreadedActor<Op> {
    /// Creates an actor over `state`: the handle, and the processor that a
    /// dedicated thread is to drive. Nothing runs until an envelope arrives.
    pub fn new(state: Op::State) -> (r: (Self, ThreadedProcessor<Op>))
        ensures
            r.1.wf(),
            r.1.initial() == state@,
            r.1.current() == state@,
            r.1.history() == Seq::<Op>::empty(),
    {
        let (tx, rx) = channel_unbounded();
        (ThreadedActor { tx }, ThreadedProcessor { executor: Executor::new(state), rx })
    }

    /// Creates an actor over the state type's default value; runs nothing.
    pub fn new_default() -> (r: (Self, ThreadedProcessor<Op>))
        where
            Op::State: Default,
        ensures
            r.1.wf(),
            r.1.current() == r.1.initial(),
            r.1.history() == Seq::<Op>::empty(),
    {
        Self::new(Op::State::default())
    }

    /// Queues `op` and returns without waiting for it to run.
    pub fn cast(&self, op: Op) -> (r: Result<(), ActorError>)
        ensures
            r is Ok || r == Err::<(), ActorError>(ActorError::EnqueueFailed),
    {
        enqueue_outcome(channel_send(&self.tx, Envelope::Cast(op)))
    }

    /// Queues `op` with a reply channel of its own and waits for its outcome:
    /// `EnqueueFailed` when the mailbox refused it, and otherwise what the
    /// reply channel gave, read by `reply_value`.
    pub fn call(&self, op: Op) -> (r: Result<Op::Output, ActorError>)
        ensures
            r == Err::<Op::Output, ActorError>(ActorError::EnqueueFailed) || exists|
                received: Option<Option<Op::Output>>,
            | r == #[trigger] reply_value(received),
    {
        let (reply_tx, reply_rx) = channel_bounded(1);
        match enqueue_outcome(channel_send(&self.tx, Envelope::Call(op, reply_tx))) {
            Err(e) => Err(e),
            Ok(()) => reply_outcome(channel_recv(&reply_rx)),
        }
    }

    /// Returns once every envelope queued earlier through this handle has been served.
    pub fn flush(&self) -> (r: Result<(), ActorError>)
        ensures
            r is Ok || r == Err::<(), ActorError>(ActorError::EnqueueFailed)
                || r == Err::<(), ActorError>(ActorError::ActorGone),
    {
        let (reply_tx, reply_rx) = channel_bounded(1);
        match enqueue_outcome(channel_send(&self.tx, Envelope::Flush(reply_tx))) {
            Err(e) => Err(e),
            Ok(()) => match channel_recv(&reply_rx) {
                Some(()) => Ok(()),
                None => Err(ActorError::ActorGone),
            },
        }
    }
}

impl<Op: Operation> Clone for ThreadedActor<Op> {
    /// Another handle to the same actor; no new actor, no copy of the state.
    fn clone(&self) -> (r: Self) {
        ThreadedActor { tx: channel_sender_clone(&self.tx) }
    }
}

} // verus!
