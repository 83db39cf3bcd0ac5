//! Type-erased handles that let anyone send one kind of message to an actor
//! without knowing the actor's type: `Sender` for one-way messages, `Caller`
//! for requests that expect a reply.
use vstd::prelude::*;

use futures::channel::oneshot;
use std::hash::{Hash, Hasher};

use crate::error::{error_with_text, ActorError};
use crate::message::{ActorEvent, Message};
use crate::pid::{hash_pid, Pid, WeakPid};

verus! {

/// The error of a reply channel whose sending end was dropped
/// (`futures::channel::oneshot::Canceled`), opaque.
#[verifier::external_type_specification]
#[verifier::external_body]
pub struct ExCanceled(oneshot::Canceled);

/// Turns a message into the job that handles it on the receiving actor.
pub trait JobFor<T, J>: Send {
    fn make_job(&self, msg: T) -> J;
}

/// Turns a request into the job that handles it on the receiving actor,
/// together with the end of a fresh channel on which that job answers.
pub trait CallJobFor<T: Message, J>: Send {
    fn make_call_job(&self, msg: T) -> (J, oneshot::Receiver<T::Result>);
}

/// How a `Sender` reaches its actor. Anyone may supply one; whatever error
/// it fails with is what the sender reports.
pub trait SendFn<T>: Send {
    /// The pid of the actor this send function reaches.
    spec fn route_pid(&self) -> u64;

    /// Whether `r` is an answer this send function may give to `msg`.
    spec fn sends(&self, msg: T, r: Result<(), anyhow::Error>) -> bool;

    /// Sends one message.
    fn send_message(&self, msg: T) -> (r: Result<(), anyhow::Error>)
        ensures
            self.sends(msg, r),
    ;
}

/// How a `Caller` reaches its actor. Anyone may supply one; whatever error
/// it fails with is what the caller reports.
pub trait CallFn<T: Message>: Send {
    /// The pid of the actor this callback reaches.
    spec fn route_pid(&self) -> u64;

    /// Whether `r` is an answer this callback may give to `msg`.
    spec fn requests(&self, msg: T, r: Result<oneshot::Receiver<T::Result>, anyhow::Error>) -> bool;

    /// Hands a request over and returns the end its reply will arrive on.
    fn request(&self, msg: T) -> (r: Result<oneshot::Receiver<T::Result>, anyhow::Error>)
        ensures
            self.requests(msg, r),
    ;
}

/// The route a `Sender` takes: a weak handle on the actor, and the way a
/// message becomes a job there.
#[verifier::reject_recursive_types(J)]
pub struct SendRoute<J, B> {
    pub target: WeakPid<J>,
    pub builder: B,
}

/// The route a `Caller` takes: a weak handle on the actor, and the way a
/// request becomes a job there.
#[verifier::reject_recursive_types(J)]
pub struct CallRoute<J, B> {
    pub target: WeakPid<J>,
    pub builder: B,
}

impl<T, J: Send + 'static, B: JobFor<T, J>> SendFn<T> for SendRoute<J, B> {
    /// The pid of the weak handle the route delivers through.
    open spec fn route_pid(&self) -> u64 {
        self.target.pid
    }

    /// Any answer: whether the actor still exists and whether its mailbox
    /// is open is decided elsewhere, so success or the closed mailbox's
    /// error may each come back (`WeakPid::send_job` says which ones).
    open spec fn sends(&self, msg: T, r: Result<(), anyhow::Error>) -> bool {
        true
    }

    /// Builds the job and hands it to the actor (`WeakPid::send_job`); the
    /// one error that gives, a closed mailbox, is reported with its text.
    fn send_message(&self, msg: T) -> Result<(), anyhow::Error> {
        let job = self.builder.make_job(msg);
        match self.target.send_job(job) {
            Ok(()) => Ok(()),
            Err(e) => Err(error_with_text(e.description())),
        }
    }
}

impl<T: Message, J: Send + 'static, B: CallJobFor<T, J>> CallFn<T> for CallRoute<J, B> {
    /// The pid of the weak handle the route delivers through.
    open spec fn route_pid(&self) -> u64 {
        self.target.pid
    }

    /// Any answer: whether the actor still exists and whether its mailbox
    /// is open is decided elsewhere (`hand_over` says which errors come).
    open spec fn requests(&self, msg: T, r: Result<oneshot::Receiver<T::Result>, anyhow::Error>) -> bool {
        true
    }

    /// Hands the request over (`hand_over`); its error is
    /// reported with its text.
    fn request(&self, msg: T) -> Result<oneshot::Receiver<T::Result>, anyhow::Error> {
        match hand_over(self, msg) {
            Ok(reply_rx) => Ok(reply_rx),
            Err(e) => Err(error_with_text(e.description())),
        }
    }
}

/// Hands a request over along `route`: builds the job and its reply
/// channel, and delivers the job to the actor. The request fails with
/// `ActorDropped` when the actor is gone and with `Disconnected` when its
/// mailbox is closed; which one is decided by `Delivery::call_outcome`.
pub fn hand_over<T: Message, J: Send + 'static, B: CallJobFor<T, J>>(
    route: &CallRoute<J, B>,
    msg: T,
) -> (r: Result<oneshot::Receiver<T::Result>, ActorError>)
    ensures
        r is Err ==> (r == Err::<oneshot::Receiver<T::Result>, ActorError>(ActorError::ActorDropped)
            || r == Err::<oneshot::Receiver<T::Result>, ActorError>(ActorError::Disconnected)),
{
    let (job, reply_rx) = route.builder.make_call_job(msg);
    match route.target.deliver(ActorEvent::Exec(job)).call_outcome() {
        Ok(()) => Ok(reply_rx),
        Err(e) => Err(e),
    }
}

/// The answer a caller gets once the reply channel resolves: the reply
/// itself, or `Canceled` when the actor dropped the channel unanswered.
pub fn reply_result<R>(reply: Result<R, oneshot::Canceled>) -> (r: Result<R, ActorError>)
    ensures
        match reply {
            Ok(v) => r == Ok::<R, ActorError>(v),
            Err(_) => r == Err::<R, ActorError>(ActorError::Canceled),
        },
{
    match reply {
        Ok(v) => Ok(v),
        Err(_c) => Err(ActorError::Canceled),
    }
}

/// A handle that sends one kind of one-way message to one actor. Senders
/// compare and hash by `pid` alone.
#[verifier::reject_recursive_types(T)]
pub struct Sender<T: Message> {
    pub pid: u64,
    pub send_fn: Box<dyn SendFn<T>>,
}

/// A handle that sends one kind of request to one actor and lets the
/// caller wait for the reply. Callers compare and hash by `pid` alone.
#[verifier::reject_recursive_types(T)]
pub struct Caller<T: Message> {
    pub pid: u64,
    pub callback: Box<dyn CallFn<T>>,
}

impl<T: Message> Sender<T> {
    /// Sends `msg` through the sender's send function and reports exactly
    /// what it reports. (A sender made by `Pid::create_sender` lets a target
    /// actor that no longer exists swallow the message, and fails only when
    /// the mailbox is closed.)
    pub fn send(&self, msg: T) -> (r: Result<(), anyhow::Error>)
        ensures
            self.send_fn.sends(msg, r),
    {
        self.send_fn.send_message(msg)
    }
}

impl<T: Message> Caller<T> {
    /// Hands `msg` over through the caller's callback and returns the end
    /// its reply arrives on, or exactly the error the callback reports. (A
    /// caller made by `Pid::create_caller` fails with the text of
    /// `ActorDropped` when the actor is gone and of `Disconnected` when its
    /// mailbox is closed.)
    pub fn request(&self, msg: T) -> (r: Result<oneshot::Receiver<T::Result>, anyhow::Error>)
        ensures
            self.callback.requests(msg, r),
    {
        self.callback.request(msg)
    }
}

impl<T: Message> PartialEq for Sender<T> {
    fn eq(&self, other: &Self) -> (r: bool) {
        self.pid == other.pid
    }
}

impl<T: Message> vstd::std_specs::cmp::PartialEqSpecImpl for Sender<T> {
    open spec fn obeys_eq_spec() -> bool {
        true
    }

    open spec fn eq_spec(&self, other: &Self) -> bool {
        self.pid == other.pid
    }
}

impl<T: Message> Hash for Sender<T> {
    fn hash<H: Hasher>(&self, state: &mut H) {
        hash_pid(self.pid, state)
    }
}

impl<T: Message> PartialEq for Caller<T> {
    fn eq(&self, other: &Self) -> (r: bool) {
        self.pid == other.pid
    }
}

impl<T: Message> vstd::std_specs::cmp::PartialEqSpecImpl for Caller<T> {
    open spec fn obeys_eq_spec() -> bool {
        true
    }

    open spec fn eq_spec(&self, other: &Self) -> bool {
        self.pid == other.pid
    }
}

impl<T: Message> Hash for Caller<T> {
    fn hash<H: Hasher>(&self, state: &mut H) {
        hash_pid(self.pid, state)
    }
}

impl<J: Send + 'static> Pid<J> {
    /// A `Sender` for messages of type `T` that reaches this actor through
    /// a weak handle, turning each message into a job with `builder`.
    pub fn create_sender<T: Message<Result = ()>, B: JobFor<T, J> + 'static>(&self, builder: B) -> (s: Sender<T>)
        ensures
            s.pid == self.pid,
            s.send_fn.route_pid() == self.pid,
    {
        Sender { pid: self.pid, send_fn: Box::new(SendRoute { target: self.downgrade(), builder }) }
    }

    /// A `Caller` for requests of type `T` that reaches this actor through
    /// a weak handle, turning each request into a job with `builder`.
    pub fn create_caller<T: Message, B: CallJobFor<T, J> + 'static>(&self, builder: B) -> (c: Caller<T>)
        ensures
            c.pid == self.pid,
            c.callback.route_pid() == self.pid,
    {
        Caller { pid: self.pid, callback: Box::new(CallRoute { target: self.downgrade(), builder }) }
    }
}

} // verus!
