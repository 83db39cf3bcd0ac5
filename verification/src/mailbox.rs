//! Outside types that carry jobs between tasks, and the calls made on them.
use vstd::prelude::*;

use futures::channel::mpsc::{TrySendError, UnboundedReceiver, UnboundedSender};
use futures::channel::oneshot;
use futures::future::{AbortHandle, Shared};
use std::sync::{Arc, Weak};

verus! {

/// The sending end of an unbounded mailbox (`futures::channel::mpsc::UnboundedSender`), opaque.
#[verifier::external_type_specification]
#[verifier::external_body]
#[verifier::reject_recursive_types(T)]
pub struct ExUnboundedSender<T>(UnboundedSender<T>);

/// The receiving end of an unbounded mailbox (`futures::channel::mpsc::UnboundedReceiver`), opaque.
#[verifier::external_type_specification]
#[verifier::external_body]
#[verifier::reject_recursive_types(T)]
pub struct ExUnboundedReceiver<T>(UnboundedReceiver<T>);

/// A refused send, carrying the refused message back (`futures::channel::mpsc::TrySendError`), opaque.
#[verifier::external_type_specification]
#[verifier::external_body]
#[verifier::reject_recursive_types(T)]
pub struct ExTrySendError<T>(TrySendError<T>);

/// The raw weak handle on the sending end of a mailbox.
///
/// `std::sync::Weak` carries an allocator parameter that cannot be named
/// here, so the handle is kept opaque in a field of this struct; Verus sees
/// none of its contents. `WeakMailbox` pairs it with the mailbox it was
/// made from.
#[verifier::external_body]
#[verifier::reject_recursive_types(T)]
pub struct WeakHandle<T> {
    inner: Weak<UnboundedSender<T>>,
}

/// A weak handle on the sending end of a mailbox, together with that end:
/// the sender it was downgraded from, which is what it regains.
#[verifier::reject_recursive_types(T)]
pub struct WeakMailbox<T> {
    handle: WeakHandle<T>,
    target: Ghost<UnboundedSender<T>>,
}

impl<T> WeakMailbox<T> {
    /// The sending end this weak handle refers to.
    pub closed spec fn target(&self) -> UnboundedSender<T> {
        self.target@
    }
}

/// The receiving end of a mailbox, together with the sending end that was
/// created with it: what is posted on that sender arrives here.
#[verifier::reject_recursive_types(T)]
pub struct MailboxReceiver<T> {
    rx: UnboundedReceiver<T>,
    sender: Ghost<UnboundedSender<T>>,
}

impl<T> MailboxReceiver<T> {
    /// The sending end created together with this receiver.
    pub closed spec fn sender(&self) -> UnboundedSender<T> {
        self.sender@
    }

    /// The receiving end itself, to be awaited.
    pub fn into_inner(self) -> UnboundedReceiver<T> {
        self.rx
    }
}

/// The end a single reply arrives on (`futures::channel::oneshot::Receiver`), opaque.
#[verifier::external_type_specification]
#[verifier::external_body]
#[verifier::reject_recursive_types(T)]
pub struct ExOneshotReceiver<T>(oneshot::Receiver<T>);

/// A future that many handles can await (`futures::future::Shared`), opaque.
#[verifier::external_type_specification]
#[verifier::external_body]
#[verifier::reject_recursive_types(Fut)]
pub struct ExShared<Fut: core::future::Future>(Shared<Fut>);

/// The handle that stops an abortable task (`futures::future::AbortHandle`), opaque.
#[verifier::external_type_specification]
#[verifier::external_body]
pub struct ExAbortHandle(AbortHandle);

/// The future that resolves once an actor has stopped.
pub type ExitSignal = Shared<oneshot::Receiver<()>>;

/// Creates an unbounded mailbox (`futures::channel::mpsc::unbounded`):
/// a sending end, and the receiving end that was created with it.
#[verifier::external_body]
pub(crate) fn new_mailbox<T>() -> (r: (UnboundedSender<T>, MailboxReceiver<T>))
    ensures
        r.1.sender() == r.0,
{
    let (tx, rx) = futures::channel::mpsc::unbounded();
    let sender = Ghost(tx);
    (tx, MailboxReceiver { rx, sender })
}

/// Puts `msg` into the mailbox (`UnboundedSender::unbounded_send`).
/// Whether it is accepted depends on whether the receiving end is still open,
/// which is state the caller cannot see, so nothing is stated of the result.
#[verifier::external_body]
pub(crate) fn post<T>(tx: &UnboundedSender<T>, msg: T) -> Result<(), TrySendError<T>> {
    tx.unbounded_send(msg)
}

/// A weak handle on a shared sending end (`std::sync::Arc::downgrade`),
/// which refers to that end.
#[verifier::external_body]
pub(crate) fn downgrade<T>(a: &Arc<UnboundedSender<T>>) -> (w: WeakMailbox<T>)
    ensures
        w.target() == **a,
{
    WeakMailbox { handle: WeakHandle { inner: Arc::downgrade(a) }, target: Ghost(**a) }
}

/// Another weak handle on the same sending end (`<Weak<_> as Clone>::clone`).
#[verifier::external_body]
pub(crate) fn clone_weak<T>(w: &WeakMailbox<T>) -> (r: WeakMailbox<T>)
    ensures
        r.target() == w.target(),
{
    WeakMailbox { handle: WeakHandle { inner: w.handle.inner.clone() }, target: Ghost(w.target()) }
}

/// Tries to regain a strong handle (`std::sync::Weak::upgrade`). Whether it
/// succeeds depends on whether any strong handle is still alive elsewhere;
/// a handle it does regain is on the sending end the weak handle refers to.
#[verifier::external_body]
pub(crate) fn upgrade<T>(w: &WeakMailbox<T>) -> (r: Option<Arc<UnboundedSender<T>>>)
    ensures
        r matches Some(a) ==> *a == w.target(),
{
    w.handle.inner.upgrade()
}

/// Another handle on the same exit signal (`<Shared<_> as Clone>::clone`).
#[verifier::external_body]
pub(crate) fn clone_exit(e: &ExitSignal) -> ExitSignal {
    e.clone()
}

/// Tells the task guarded by `h` to stop (`AbortHandle::abort`).
#[verifier::external_body]
pub(crate) fn abort(h: &AbortHandle) {
    h.abort()
}

} // verus!
