//! Handles on a running actor: `Pid` keeps its mailbox alive, `WeakPid`
//! does not.
use vstd::prelude::*;

use futures::channel::mpsc::{TrySendError, UnboundedSender};
use std::hash::{Hash, Hasher};
use std::sync::Arc;
use vstd::std_specs::cmp::PartialEqSpec;

use crate::error::{spec_call_outcome, spec_send_outcome, ActorError, Delivery};
use crate::mailbox::{clone_exit, clone_weak, downgrade, post, upgrade, ExitSignal, WeakMailbox};
use crate::message::ActorEvent;

verus! {

/// Feeds a pid to a hasher (`<u64 as Hash>::hash`); handles hash by pid
/// alone. Nothing is stated of the hasher's state.
#[verifier::external_body]
pub(crate) fn hash_pid<H: Hasher>(pid: u64, state: &mut H) {
    pid.hash(state)
}

/// A copy of an optional exit signal.
pub(crate) fn copy_exit(e: &Option<ExitSignal>) -> (r: Option<ExitSignal>)
    ensures
        r.is_some() == e.is_some(),
{
    match e {
        Some(s) => Some(clone_exit(s)),
        None => None,
    }
}

/// What a mailbox's answer to one post means for the sender: an accepted
/// event is success, a refused one means the receiving end is gone.
pub open spec fn spec_post_outcome<E>(posted: Result<(), TrySendError<E>>) -> Result<(), ActorError> {
    match posted {
        Ok(()) => Ok(()),
        Err(_) => Err(ActorError::Disconnected),
    }
}

/// The answer a sender gets for the mailbox's answer `posted`.
pub fn post_outcome<E>(posted: Result<(), TrySendError<E>>) -> (r: Result<(), ActorError>)
    ensures
        r == spec_post_outcome(posted),
{
    match posted {
        Ok(()) => Ok(()),
        Err(_e) => Err(ActorError::Disconnected),
    }
}

/// What became of an attempt to deliver through a weak handle: `None` when
/// no strong handle could be regained (so nothing was posted), otherwise the
/// mailbox's answer to the post.
pub open spec fn spec_delivery_from<E>(posted: Option<Result<(), TrySendError<E>>>) -> Delivery {
    match posted {
        None => Delivery::TargetGone,
        Some(Ok(())) => Delivery::Sent,
        Some(Err(_)) => Delivery::Closed,
    }
}

/// The delivery outcome for the attempt `posted`.
pub fn delivery_from<E>(posted: Option<Result<(), TrySendError<E>>>) -> (d: Delivery)
    ensures
        d == spec_delivery_from(posted),
{
    match posted {
        None => Delivery::TargetGone,
        Some(Ok(())) => Delivery::Sent,
        Some(Err(_e)) => Delivery::Closed,
    }
}

/// Puts an event into a mailbox held strongly. The mailbox refuses it only
/// when its receiving end is gone, which is reported as `Disconnected`;
/// which of the two happens is decided by `post_outcome` from the mailbox's
/// answer.
pub(crate) fn post_event<J>(tx: &UnboundedSender<ActorEvent<J>>, ev: ActorEvent<J>) -> (r: Result<(), ActorError>)
    ensures
        r is Ok || r == Err::<(), ActorError>(ActorError::Disconnected),
{
    post_outcome(post(tx, ev))
}

/// Puts an event into a mailbox held weakly: first regain a strong handle,
/// then post. Both steps depend on state elsewhere, so every outcome is
/// possible; `delivery_from` says which one each answer gives.
pub(crate) fn deliver_event<J>(tx: &WeakMailbox<ActorEvent<J>>, ev: ActorEvent<J>) -> Delivery {
    let posted = match upgrade(tx) {
        None => None,
        Some(strong) => Some(post(&*strong, ev)),
    };
    delivery_from(posted)
}

/// Sending a job through a weak handle answers as posting it through the
/// strong handle regained from it does, and answers `Ok` when no strong
/// handle could be regained (the job is dropped): the two ways of handing a
/// job over agree on every mailbox answer.
pub proof fn law_weak_send_agrees_with_strong_post<E>(posted: Result<(), TrySendError<E>>)
    ensures
        spec_send_outcome(spec_delivery_from(Some(posted))) == spec_post_outcome(posted),
        spec_send_outcome(spec_delivery_from::<E>(None)) == Ok::<(), ActorError>(()),
{
}

/// A request is reported as `ActorDropped` exactly when no strong handle on
/// the actor could be regained, succeeds exactly when the mailbox accepted
/// it, and is `Disconnected` exactly when the mailbox refused it.
pub proof fn law_request_outcome_follows_the_attempt<E>(posted: Option<Result<(), TrySendError<E>>>)
    ensures
        (spec_call_outcome(spec_delivery_from(posted)) == Err::<(), ActorError>(ActorError::ActorDropped)) <==> posted is None,
        (spec_call_outcome(spec_delivery_from(posted)) is Ok) <==> (posted matches Some(Ok(()))),
        (spec_call_outcome(spec_delivery_from(posted)) == Err::<(), ActorError>(ActorError::Disconnected)) <==> (posted matches Some(Err(_))),
{
}

/// A strong handle on an actor: while one exists, the actor's mailbox stays
/// open. Handles compare and hash by `pid` alone.
#[verifier::reject_recursive_types(J)]
pub struct Pid<J> {
    pub pid: u64,
    pub tx: Arc<UnboundedSender<ActorEvent<J>>>,
    pub rx: Option<ExitSignal>,
}

/// A weak handle on an actor: it does not keep the mailbox open.
#[verifier::reject_recursive_types(J)]
pub struct WeakPid<J> {
    pub pid: u64,
    pub tx: WeakMailbox<ActorEvent<J>>,
    pub rx: Option<ExitSignal>,
}

/// The strong handle made from an attempt to regain the mailbox: one with
/// the given pid, mailbox end and exit signal when the attempt succeeded
/// (`tx` is `Some`), none otherwise.
pub fn pid_from_upgrade<J>(
    pid: u64,
    tx: Option<Arc<UnboundedSender<ActorEvent<J>>>>,
    rx: Option<ExitSignal>,
) -> (r: Option<Pid<J>>)
    ensures
        r.is_some() == tx.is_some(),
        r matches Some(p) ==> p.pid == pid && p.tx == tx->0 && p.rx == rx,
{
    match tx {
        Some(tx) => Some(Pid { pid, tx, rx }),
        None => None,
    }
}

impl<J> Pid<J> {
    /// `w` is a weak handle on this actor: the same pid, the same mailbox
    /// end, and an exit signal exactly when this handle has one.
    pub open spec fn weakened_to(&self, w: &WeakPid<J>) -> bool {
        &&& w.pid == self.pid
        &&& w.tx.target() == *self.tx
        &&& w.rx.is_some() == self.rx.is_some()
    }

    /// The actor's process id.
    pub fn pid(&self) -> (r: u64)
        ensures
            r == self.pid,
    {
        self.pid
    }

    /// Asks the actor to stop, passing `err` along. Fails only when the
    /// mailbox is closed.
    pub fn terminate(&mut self, err: Option<anyhow::Error>) -> (r: Result<(), ActorError>)
        ensures
            *final(self) == *old(self),
            r is Ok || r == Err::<(), ActorError>(ActorError::Disconnected),
    {
        post_event(&*self.tx, ActorEvent::Stop(err))
    }

    /// Hands a job to the actor. Fails only when the mailbox is closed.
    pub fn post_job(&self, job: J) -> (r: Result<(), ActorError>)
        ensures
            r is Ok || r == Err::<(), ActorError>(ActorError::Disconnected),
    {
        post_event(&*self.tx, ActorEvent::Exec(job))
    }

    /// A weak handle on the same actor, with the same pid.
    pub fn downgrade(&self) -> (w: WeakPid<J>)
        ensures
            self.weakened_to(&w),
            w.pid == self.pid,
            w.tx.target() == *self.tx,
            w.rx.is_some() == self.rx.is_some(),
    {
        WeakPid { pid: self.pid, tx: downgrade(&self.tx), rx: copy_exit(&self.rx) }
    }
}

impl<J> Clone for Pid<J> {
    fn clone(&self) -> (r: Self)
        ensures
            r.pid == self.pid,
            r.tx == self.tx,
            r.rx.is_some() == self.rx.is_some(),
    {
        Pid { pid: self.pid, tx: self.tx.clone(), rx: copy_exit(&self.rx) }
    }
}

impl<J> PartialEq for Pid<J> {
    fn eq(&self, other: &Self) -> (r: bool) {
        self.pid == other.pid
    }
}

impl<J> vstd::std_specs::cmp::PartialEqSpecImpl for Pid<J> {
    open spec fn obeys_eq_spec() -> bool {
        true
    }

    open spec fn eq_spec(&self, other: &Self) -> bool {
        self.pid == other.pid
    }
}

impl<J> Hash for Pid<J> {
    fn hash<H: Hasher>(&self, state: &mut H) {
        hash_pid(self.pid, state)
    }
}

impl<J> WeakPid<J> {
    /// `p` is a strong handle regained from this weak one: the same pid, the
    /// mailbox end this handle refers to, and an exit signal exactly when
    /// this handle has one.
    pub open spec fn regained_as(&self, p: &Pid<J>) -> bool {
        &&& p.pid == self.pid
        &&& *p.tx == self.tx.target()
        &&& p.rx.is_some() == self.rx.is_some()
    }

    /// The actor's process id.
    pub fn pid(&self) -> (r: u64)
        ensures
            r == self.pid,
    {
        self.pid
    }

    /// A strong handle on the same actor, if its mailbox is still held
    /// strongly somewhere. A handle it gives has the same pid.
    pub fn upgrade(&self) -> (r: Option<Pid<J>>)
        ensures
            r matches Some(p) ==> self.regained_as(&p),
            r matches Some(p) ==> p.pid == self.pid && *p.tx == self.tx.target() && p.rx.is_some() == self.rx.is_some(),
    {
        pid_from_upgrade(self.pid, upgrade(&self.tx), copy_exit(&self.rx))
    }

    /// Tries to put an event into the actor's mailbox.
    pub fn deliver(&self, ev: ActorEvent<J>) -> Delivery {
        deliver_event(&self.tx, ev)
    }

    /// Hands a job to the actor the way a one-way `Sender` does: an actor
    /// that is gone swallows the job silently, a closed mailbox is an error.
    pub fn send_job(&self, job: J) -> (r: Result<(), ActorError>)
        ensures
            r is Ok || r == Err::<(), ActorError>(ActorError::Disconnected),
    {
        let d = self.deliver(ActorEvent::Exec(job));
        d.send_outcome()
    }
}

impl<J> Clone for WeakPid<J> {
    fn clone(&self) -> (r: Self)
        ensures
            r.pid == self.pid,
            r.tx.target() == self.tx.target(),
            r.rx.is_some() == self.rx.is_some(),
    {
        WeakPid { pid: self.pid, tx: clone_weak(&self.tx), rx: copy_exit(&self.rx) }
    }
}

impl<J> PartialEq for WeakPid<J> {
    fn eq(&self, other: &Self) -> (r: bool) {
        self.pid == other.pid
    }
}

impl<J> vstd::std_specs::cmp::PartialEqSpecImpl for WeakPid<J> {
    open spec fn obeys_eq_spec() -> bool {
        true
    }

    open spec fn eq_spec(&self, other: &Self) -> bool {
        self.pid == other.pid
    }
}

impl<J> Hash for WeakPid<J> {
    fn hash<H: Hasher>(&self, state: &mut H) {
        hash_pid(self.pid, state)
    }
}

/// A handle regained from a weak handle that was taken from `p` is a
/// handle on the same actor: it has `p`'s pid and reaches `p`'s mailbox
/// end, and it compares equal to `p`, both ways. So handles on one actor
/// are interchangeable as keys.
pub proof fn law_downgrade_then_upgrade_is_same_actor<J>(p: Pid<J>, w: WeakPid<J>, q: Pid<J>)
    requires
        p.weakened_to(&w),
        w.regained_as(&q),
    ensures
        q.pid == p.pid,
        *q.tx == *p.tx,
        q.rx.is_some() == p.rx.is_some(),
        p.eq_spec(&q),
        q.eq_spec(&p),
{
}

} // verus!
