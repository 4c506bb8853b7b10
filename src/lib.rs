//! Actors: a privately owned state value that is only ever touched by
//! operations taken one at a time, in arrival order, from a mailbox.
//!
//! Two backends share one model. `ThreadedActor` is served by a dedicated
//! OS thread and uses `crossbeam_channel`; `Actor` is served by a task of a
//! cooperative scheduler and uses `async_channel`. In both, a handle only
//! holds the sending end of the mailbox, and the processor that owns the
//! state runs each envelope to completion through an `Executor`.
mod commands;
mod cooperative;
mod operation;
mod outcome;
mod threaded;

pub use commands::{
    CounterOp, ListOp, appends, increments, lemma_appends_in_order, lemma_increment_results,
    lemma_increments_count,
};
pub use cooperative::{Actor, ActorProcessor, Message, MessageReply, Pending};
pub use operation::{Executor, Operation, apply, lemma_run_ops_push, run_ops};
pub use outcome::{
    ActorError, Turn, enqueue_outcome, lemma_unanswered_call_is_actor_gone, reply_outcome, reply_value,
};
pub use threaded::{Envelope, EnvelopeReply, ThreadedActor, ThreadedProcessor};
