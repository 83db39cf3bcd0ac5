//! The state an actor carries while it runs: its pid, a weak handle on its
//! own mailbox, its exit signal and its stream listeners, and the decision
//! its run loop takes for each mailbox event.
use vstd::prelude::*;

use futures::channel::mpsc::UnboundedSender;
use futures::future::AbortHandle;
use slab::Slab;
use std::sync::Arc;

use crate::listeners::{abort_all, has_listener, insert_listener, listener_keys, listener_vacant_key, new_listener_table, remove_listener};
use crate::mailbox::{clone_weak, downgrade, new_mailbox, upgrade, ExitSignal, MailboxReceiver, WeakMailbox};
use crate::message::ActorEvent;
use crate::pid::{copy_exit, deliver_event, pid_from_upgrade, Pid, WeakPid};
use crate::pump::{ListenerPump, PumpStage};

verus! {

/// What the run loop does after taking one event out of the mailbox.
pub enum LoopStep<J> {
    /// Run this job against the actor, then wait for the next event.
    Run(J),
    /// Leave the loop: the actor stops.
    Stop,
    /// Nothing to run; wait for the next event.
    Continue,
}

/// An actor's own view of itself.
#[verifier::reject_recursive_types(J)]
pub struct Context<J> {
    pub pid: u64,
    pub tx: WeakMailbox<ActorEvent<J>>,
    pub exit: Option<ExitSignal>,
    pub listeners: Slab<AbortHandle>,
}

impl<J> Context<J> {
    /// Whether two contexts belong to the same actor and mailbox and carry
    /// the same exit signal (their listeners may differ).
    pub open spec fn same_actor(&self, other: &Self) -> bool {
        &&& self.pid == other.pid
        &&& self.tx == other.tx
        &&& self.exit == other.exit
    }

    /// `after` is this context with one more stream listener, filed under
    /// `key`: the table's next vacant key, which no listener held before.
    /// Every other key stays as it was, so the table grows by one.
    pub open spec fn registers(&self, after: &Self, key: usize) -> bool {
        &&& after.same_actor(self)
        &&& key == listener_vacant_key(self.listeners)
        &&& !listener_keys(self.listeners).contains(key)
        &&& listener_keys(after.listeners) == listener_keys(self.listeners).insert(key)
        &&& listener_keys(after.listeners).finite()
        &&& listener_keys(after.listeners).len() == listener_keys(self.listeners).len() + 1
    }

    /// `after` is this context once the listener filed under `key` is gone:
    /// its key is freed and handed out next; a key the table does not hold
    /// leaves the table as it is.
    pub open spec fn drops(&self, after: &Self, key: usize) -> bool {
        &&& after.same_actor(self)
        &&& listener_keys(after.listeners) == listener_keys(self.listeners).remove(key)
        &&& if listener_keys(self.listeners).contains(key) {
            &&& listener_vacant_key(after.listeners) == key
            &&& listener_keys(after.listeners).finite()
            &&& listener_keys(after.listeners).len() + 1 == listener_keys(self.listeners).len()
        } else {
            after.listeners == self.listeners
        }
    }

    /// A fresh context for the actor with process id `pid`, together with
    /// the two ends of its new mailbox: the receiving end, and the sending
    /// end created with it, which is also the end the context refers to.
    /// The context holds that end weakly only, so the mailbox closes once
    /// every strong handle is gone. It starts without listeners, and its
    /// first listener is filed under key 0.
    pub fn new(pid: u64, exit: Option<ExitSignal>) -> (r: (
        Self,
        MailboxReceiver<ActorEvent<J>>,
        Arc<UnboundedSender<ActorEvent<J>>>,
    ))
        ensures
            r.0.pid == pid,
            r.0.exit == exit,
            r.0.tx.target() == *r.2,
            r.1.sender() == *r.2,
            listener_keys(r.0.listeners) == Set::<usize>::empty(),
            listener_keys(r.0.listeners).finite(),
            listener_vacant_key(r.0.listeners) == 0,
    {
        let (tx, rx) = new_mailbox::<ActorEvent<J>>();
        let tx = Arc::new(tx);
        let weak_tx = downgrade(&tx);
        (Context { pid, tx: weak_tx, exit, listeners: new_listener_table() }, rx, tx)
    }

    /// A strong handle on this actor, with its pid. There is none once every
    /// other strong handle on the mailbox has been dropped.
    pub fn pid(&self) -> (r: Option<Pid<J>>)
        ensures
            r matches Some(p) ==> p.pid == self.pid && *p.tx == self.tx.target() && p.rx.is_some() == self.exit.is_some(),
    {
        pid_from_upgrade(self.pid, upgrade(&self.tx), copy_exit(&self.exit))
    }

    /// The actor's process id.
    pub fn ctx_pid(&self) -> (r: u64)
        ensures
            r == self.pid,
    {
        self.pid
    }

    /// A weak handle on this actor, with its pid.
    pub fn weak_pid(&self) -> (w: WeakPid<J>)
        ensures
            w.pid == self.pid,
            w.tx.target() == self.tx.target(),
            w.rx.is_some() == self.exit.is_some(),
    {
        WeakPid { pid: self.pid, tx: clone_weak(&self.tx), rx: copy_exit(&self.exit) }
    }

    /// Asks the actor itself to stop, passing `err` along; if the mailbox
    /// is gone or closed there is nobody left to ask, and nothing happens.
    pub fn terminate(&self, err: Option<anyhow::Error>) {
        let _ = deliver_event(&self.tx, ActorEvent::Stop(err));
    }

    /// Records a new stream listener by its abort handle and returns the
    /// forwarding task's state: filed under the table's next vacant key, a
    /// key no current listener has, and about to announce the connection.
    pub fn register_listener(&mut self, handle: AbortHandle) -> (pump: ListenerPump)
        ensures
            old(self).registers(final(self), pump.key),
            pump.stage == PumpStage::Connecting,
            pump.key == listener_vacant_key(old(self).listeners),
            !listener_keys(old(self).listeners).contains(pump.key),
            listener_keys(final(self).listeners) == listener_keys(old(self).listeners).insert(pump.key),
            final(self).pid == old(self).pid,
            final(self).tx == old(self).tx,
            final(self).exit == old(self).exit,
    {
        let key = insert_listener(&mut self.listeners, handle);
        ListenerPump::new(key)
    }

    /// The run loop's decision for one mailbox event: a job is handed out to
    /// be run, a stop request ends the loop, and the end of a listener's
    /// stream drops that listener from the table if it is still there.
    pub fn handle_event(&mut self, ev: ActorEvent<J>) -> (step: LoopStep<J>)
        ensures
            final(self).same_actor(old(self)),
            match ev {
                ActorEvent::Exec(job) => step == LoopStep::Run(job) && final(self).listeners == old(self).listeners,
                ActorEvent::Stop(_) => step == LoopStep::<J>::Stop && final(self).listeners == old(self).listeners,
                ActorEvent::DropListener(key) => step == LoopStep::<J>::Continue && old(self).drops(final(self), key)
                    && listener_keys(final(self).listeners) == listener_keys(old(self).listeners).remove(key),
            },
    {
        match ev {
            ActorEvent::Exec(job) => LoopStep::Run(job),
            ActorEvent::Stop(_err) => LoopStep::Stop,
            ActorEvent::DropListener(key) => {
                if has_listener(&self.listeners, key) {
                    let _handle = remove_listener(&mut self.listeners, key);
                } else {
                    assert(listener_keys(self.listeners).remove(key) =~= listener_keys(self.listeners));
                }
                LoopStep::Continue
            },
        }
    }

    /// Signals every stream listener of the actor to stop; the table itself
    /// is left as it is. Returns the keys whose listeners were signalled:
    /// every key the table holds, once each, ascending.
    pub fn abort_listeners(&self) -> (aborted: Vec<usize>)
        ensures
            forall|k: usize| listener_keys(self.listeners).contains(k) <==> #[trigger] aborted@.contains(k),
            forall|i: int, j: int| 0 <= i < j < aborted@.len() ==> aborted@[i] < aborted@[j],
    {
        abort_all(&self.listeners)
    }
}

/// The first listener of a fresh context is filed under key 0.
pub proof fn law_first_listener_gets_key_zero<J>(fresh: Context<J>, after: Context<J>, key: usize)
    requires
        listener_keys(fresh.listeners) == Set::<usize>::empty(),
        listener_vacant_key(fresh.listeners) == 0,
        fresh.registers(&after, key),
    ensures
        key == 0,
        listener_keys(after.listeners) == Set::<usize>::empty().insert(0usize),
{
}

/// A listener that is registered and later announced as ended leaves the
/// listener table with exactly the keys it had before, handing out the
/// same key next, and leaves the actor's identity alone.
pub proof fn law_register_then_drop_restores<J>(c0: Context<J>, c1: Context<J>, c2: Context<J>, key: usize)
    requires
        c0.registers(&c1, key),
        c1.drops(&c2, key),
    ensures
        listener_keys(c2.listeners) == listener_keys(c0.listeners),
        listener_vacant_key(c2.listeners) == listener_vacant_key(c0.listeners),
        c2.same_actor(&c0),
{
    assert(listener_keys(c0.listeners).insert(key).remove(key) =~= listener_keys(c0.listeners));
}

/// Stopping an actor after one of its listeners announced its end signals
/// every other listener it owned, and only those. Stated over what
/// `handle_event` (for the drop) and `abort_listeners` ensure.
pub proof fn law_stop_after_drop_aborts_the_rest<J>(c0: Context<J>, c1: Context<J>, key: usize, aborted: Seq<usize>)
    requires
        listener_keys(c1.listeners) == listener_keys(c0.listeners).remove(key),
        forall|k: usize| listener_keys(c1.listeners).contains(k) <==> #[trigger] aborted.contains(k),
    ensures
        forall|k: usize| listener_keys(c0.listeners).contains(k) && k != key ==> #[trigger] aborted.contains(k),
        forall|k: usize| #[trigger] aborted.contains(k) ==> listener_keys(c0.listeners).contains(k) && k != key,
{
}

/// Announcing the end of a listener the table does not hold leaves the
/// table exactly as it is.
pub proof fn law_drop_unknown_is_noop<J>(c0: Context<J>, c1: Context<J>, key: usize)
    requires
        !listener_keys(c0.listeners).contains(key),
        c0.drops(&c1, key),
    ensures
        c1.listeners == c0.listeners,
        c1.same_actor(&c0),
{
}

} // verus!
