//! Why a request to an actor did not go through, and how a delivery attempt
//! turns into the answer a caller sees.
use vstd::prelude::*;

verus! {

/// The error an actor may be asked to stop with (`anyhow::Error`), opaque:
/// it is carried along, never read.
#[verifier::external_type_specification]
#[verifier::external_body]
pub struct ExAnyhowError(anyhow::Error);

/// An error that reads as `text` (`anyhow::Error::msg`). The error value is
/// opaque here, so nothing is stated of it; its text is `text`.
#[verifier::external_body]
pub(crate) fn error_with_text(text: &'static str) -> anyhow::Error {
    anyhow::Error::msg(text)
}

/// The ways a request to an actor can fail.
#[derive(Debug, Clone, Copy, PartialEq, Eq, Structural)]
pub enum ActorError {
    /// The mailbox no longer accepts jobs: its receiving end is gone.
    Disconnected,
    /// The actor dropped the reply channel without answering.
    Canceled,
    /// Every strong handle on the actor is gone ("Actor Dropped").
    ActorDropped,
}

impl ActorError {
    /// The text an error of this kind reads as.
    pub fn description(&self) -> (r: &'static str)
        ensures
            match self {
                ActorError::Disconnected => r@ == "send failed because receiver is gone"@,
                ActorError::Canceled => r@ == "oneshot canceled"@,
                ActorError::ActorDropped => r@ == "Actor Dropped"@,
            },
    {
        match self {
            ActorError::Disconnected => "send failed because receiver is gone",
            ActorError::Canceled => "oneshot canceled",
            ActorError::ActorDropped => "Actor Dropped",
        }
    }
}

/// What became of one attempt to put a job into a mailbox that is reached
/// through a weak handle.
#[derive(Debug, Clone, Copy, PartialEq, Eq, Structural)]
pub enum Delivery {
    /// The mailbox accepted the job.
    Sent,
    /// No strong handle on the mailbox was left, so nothing was sent.
    TargetGone,
    /// The mailbox exists but refused the job: its receiver is gone.
    Closed,
}

/// The answer a one-way send gives for a delivery: a vanished target is not
/// an error, a closed mailbox is.
pub open spec fn spec_send_outcome(d: Delivery) -> Result<(), ActorError> {
    match d {
        Delivery::Sent => Ok(()),
        Delivery::TargetGone => Ok(()),
        Delivery::Closed => Err(ActorError::Disconnected),
    }
}

/// The answer a request that waits for a reply gives for a delivery: a
/// vanished target is reported as dropped.
pub open spec fn spec_call_outcome(d: Delivery) -> Result<(), ActorError> {
    match d {
        Delivery::Sent => Ok(()),
        Delivery::TargetGone => Err(ActorError::ActorDropped),
        Delivery::Closed => Err(ActorError::Disconnected),
    }
}

impl Delivery {
    /// The result of a one-way send (`Sender::send`) for this delivery.
    pub fn send_outcome(self) -> (r: Result<(), ActorError>)
        ensures
            r == spec_send_outcome(self),
    {
        match self {
            Delivery::Sent => Ok(()),
            Delivery::TargetGone => Ok(()),
            Delivery::Closed => Err(ActorError::Disconnected),
        }
    }

    /// The result of handing over a request that expects a reply.
    pub fn call_outcome(self) -> (r: Result<(), ActorError>)
        ensures
            r == spec_call_outcome(self),
    {
        match self {
            Delivery::Sent => Ok(()),
            Delivery::TargetGone => Err(ActorError::ActorDropped),
            Delivery::Closed => Err(ActorError::Disconnected),
        }
    }
}

} // verus!
