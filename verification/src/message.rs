//! Messages and the events an actor's mailbox carries.
use vstd::prelude::*;

verus! {

/// A message an actor can be sent; `Result` is what handling it answers.
pub trait Message: 'static + Send {
    type Result: 'static + Send;
}

/// One entry of an actor's mailbox.
///
/// `J` is the job type: a piece of work the runtime runs against the actor.
pub enum ActorEvent<J> {
    /// Run this job against the actor.
    Exec(J),
    /// Stop the actor; the error, if any, is carried along and not read.
    Stop(Option<anyhow::Error>),
    /// The stream listener registered under this key has ended.
    DropListener(usize),
}

} // verus!
