use vstd::prelude::*;

verus! {

/// Why an actor request did not produce its result.
#[derive(Clone, Copy, Debug, PartialEq, Eq, Structural)]
pub enum ActorError {
    /// The mailbox refused the envelope: its processor has already stopped.
    EnqueueFailed,
    /// The reply never came: the processor stopped before answering.
    ActorGone,
    /// The operation itself failed and left the state untouched.
    OperationFailed,
}

/// What one turn of a processor did.
#[derive(Clone, Copy, Debug, PartialEq, Eq, Structural)]
pub enum Turn {
    /// An envelope was served.
    Served,
    /// A cast's operation failed; no caller waits for it, so it is reported here.
    CastFailed,
    /// The mailbox is closed and empty: the processor is done.
    Closed,
}

/// What handing an envelope to the mailbox means to the sender.
pub fn enqueue_outcome(sent: bool) -> (r: Result<(), ActorError>)
    ensures
        r == (if sent {
            Ok::<(), ActorError>(())
        } else {
            Err(ActorError::EnqueueFailed)
        }),
{
    if sent {
        Ok(())
    } else {
        Err(ActorError::EnqueueFailed)
    }
}

/// What a caller makes of its reply channel: the operation's value, or
/// `OperationFailed` when the processor reported that the operation failed,
/// or `ActorGone` when the channel closed empty because the processor
/// stopped, or dropped the request, without answering.
pub open spec fn reply_value<R>(received: Option<Option<R>>) -> Result<R, ActorError> {
    match received {
        Some(Some(v)) => Ok(v),
        Some(None) => Err(ActorError::OperationFailed),
        None => Err(ActorError::ActorGone),
    }
}

/// Maps what a reply channel gave (`None`: it closed empty) to the caller's result.
pub fn reply_outcome<R>(received: Option<Option<R>>) -> (r: Result<R, ActorError>)
    ensures
        r == reply_value(received),
{
    match received {
        Some(Some(v)) => Ok(v),
        Some(None) => Err(ActorError::OperationFailed),
        None => Err(ActorError::ActorGone),
    }
}

/// A call that is never answered, because the actor terminated or its
/// envelope was discarded, resolves to the recoverable `ActorGone`; and no
/// reply, answered or not, passes for a refused enqueue.
pub proof fn lemma_unanswered_call_is_actor_gone<R>()
    ensures
        reply_value::<R>(None) == Err::<R, ActorError>(ActorError::ActorGone),
        forall|received: Option<Option<R>>|
            #[trigger] reply_value(received) != Err::<R, ActorError>(ActorError::EnqueueFailed),
{
}

} // verus!
