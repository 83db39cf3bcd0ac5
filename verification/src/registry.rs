//! Broadcast registries: a `Registry<T>` is an actor that keeps, per
//! subscribed actor pid, a `Sender<T>`, and forwards every published `T` to
//! all of them. Also the table that maps each service type to its single
//! running instance.
use vstd::prelude::*;

use std::collections::HashMap;
use std::hash::Hash;

use crate::callback::{SendFn, Sender};
use vstd::std_specs::hash::spec_hash_map_iter;
use vstd::std_specs::iter::IteratorSpec;
use crate::message::Message;

verus! {

broadcast use vstd::std_specs::hash::group_hash_axioms;

/// Subscribes the actor `pid` to a registry, through `sender`.
#[verifier::reject_recursive_types(T)]
pub struct Connect<T: Message<Result = ()>> {
    pub pid: u64,
    pub sender: Sender<T>,
}

impl<T: Message<Result = ()>> Message for Connect<T> {
    type Result = ();
}

/// Unsubscribes the actor `pid` from a registry.
pub struct Disconnect {
    pub pid: u64,
}

impl Message for Disconnect {
    type Result = ();
}

/// A message to be forwarded to every subscriber of a registry.
pub struct Publish<T: Message<Result = ()> + Clone>(pub T);

impl<T: Message<Result = ()> + Clone> Message for Publish<T> {
    type Result = ();
}

/// The subscribers of one message type, keyed by the pid they subscribed
/// under; one sender per pid.
#[verifier::reject_recursive_types(T)]
pub struct Registry<T: Message<Result = ()>> {
    pub listeners: HashMap<u64, Sender<T>>,
}

impl<T: Message<Result = ()>> View for Registry<T> {
    type V = Map<u64, Sender<T>>;

    open spec fn view(&self) -> Map<u64, Sender<T>> {
        self.listeners@
    }
}

impl<T: Message<Result = ()>> Default for Registry<T> {
    /// A registry without subscribers.
    fn default() -> (r: Self)
        ensures
            r@ == Map::<u64, Sender<T>>::empty(),
    {
        Registry { listeners: HashMap::new() }
    }
}

impl<T: Message<Result = ()>> Registry<T> {
    /// `after` is this registry with `pid` subscribed through `sender`,
    /// replacing any earlier sender of that pid, and nobody else affected.
    pub open spec fn subscribes(&self, after: &Self, pid: u64, sender: Sender<T>) -> bool {
        after@ == self@.insert(pid, sender)
    }

    /// `after` is this registry with `pid` no longer subscribed, and nobody
    /// else affected.
    pub open spec fn unsubscribes(&self, after: &Self, pid: u64) -> bool {
        after@ == self@.remove(pid)
    }

    /// Handles a subscription: the pid now maps to the given sender,
    /// replacing any earlier one; nobody else is affected.
    pub fn on_connect(&mut self, msg: Connect<T>)
        ensures
            old(self).subscribes(final(self), msg.pid, msg.sender),
            final(self)@.contains_key(msg.pid),
            final(self)@[msg.pid] == msg.sender,
            forall|p: u64| p != msg.pid ==> (#[trigger] final(self)@.contains_key(p) == old(self)@.contains_key(p)),
            forall|p: u64| p != msg.pid && old(self)@.contains_key(p) ==> #[trigger] final(self)@[p] == old(self)@[p],
    {
        let Connect { pid, sender } = msg;
        let _previous = self.listeners.insert(pid, sender);
    }

    /// Handles an unsubscription: the pid is no longer subscribed; nobody
    /// else is affected. Unsubscribing an unknown pid changes nothing.
    pub fn on_disconnect(&mut self, msg: Disconnect)
        ensures
            old(self).unsubscribes(final(self), msg.pid),
            !final(self)@.contains_key(msg.pid),
            forall|p: u64| p != msg.pid ==> (#[trigger] final(self)@.contains_key(p) == old(self)@.contains_key(p)),
            forall|p: u64| p != msg.pid && old(self)@.contains_key(p) ==> #[trigger] final(self)@[p] == old(self)@[p],
    {
        let _previous = self.listeners.remove(&msg.pid);
    }
}

impl<T: Message<Result = ()> + Clone> Registry<T> {
    /// `r` is an answer the sender subscribed under `pid` may give to a
    /// copy of `item`.
    pub open spec fn answered(&self, item: T, pid: u64, r: Result<(), anyhow::Error>) -> bool {
        exists|copy: T| cloned(item, copy) && #[trigger] self@[pid].send_fn.sends(copy, r)
    }

    /// Forwards a copy of the published message to every subscriber, one
    /// send per subscriber. It returns, for each subscriber in the order
    /// they were sent to, its pid and the answer its sender gave to the copy
    /// it was handed; a failed send stops nobody else, and the
    /// subscriptions stay as they are.
    pub fn on_publish(&self, msg: Publish<T>) -> (report: Vec<(u64, Result<(), anyhow::Error>)>)
        ensures
            report@.len() == self@.dom().len(),
            forall|i: int, j: int| 0 <= i < j < report@.len() ==> report@[i].0 != report@[j].0,
            forall|pid: u64| #[trigger] self@.contains_key(pid) <==> exists|i: int| 0 <= i < report@.len() && report@[i].0 == pid,
            forall|i: int| #![trigger report@[i]] 0 <= i < report@.len() ==> self.answered(msg.0, report@[i].0, report@[i].1),
    {
        let Publish(item) = msg;
        let mut report: Vec<(u64, Result<(), anyhow::Error>)> = Vec::new();
        for entry in it: self.listeners.iter()
            invariant
                report@.len() == it.index(),
                it.seq() == spec_hash_map_iter(&self.listeners).remaining(),
                forall|i: int| 0 <= i < report@.len() ==> report@[i].0 == *it.seq()[i].0,
                forall|i: int| #![trigger report@[i]] 0 <= i < report@.len() ==> self.answered(item, report@[i].0, report@[i].1),
        {
            let (pid, sender) = entry;
            let copy = item.clone();
            let answer = sender.send(copy);
            proof {
                assert(self@.contains_key(*pid) && self@[*pid] == *sender);
                assert(cloned(item, copy));
                assert(self@[*pid].send_fn.sends(copy, answer));
            }
            report.push((*pid, answer));
        }
        proof {
            let v = spec_hash_map_iter(&self.listeners).remaining();
            assert forall|pid: u64| #[trigger] self@.contains_key(pid) implies exists|i: int| 0 <= i < report@.len() && report@[i].0 == pid by {
                assert(v.contains((&pid, &self@[pid])));
                let j = choose|j: int| 0 <= j < v.len() && v[j] == (&pid, &self@[pid]);
                assert(report@[j].0 == pid);
            }
            assert forall|pid: u64| (exists|i: int| 0 <= i < report@.len() && report@[i].0 == pid) implies #[trigger] self@.contains_key(pid) by {
                let i = choose|i: int| 0 <= i < report@.len() && report@[i].0 == pid;
                assert(self@.contains_key(*v[i].0));
            }
        }
        report
    }
}

/// Subscribing a pid and then unsubscribing it leaves the subscriptions as
/// if that pid had only been unsubscribed: no trace of the subscription is
/// left, and a pid that was not subscribed before leaves the registry as it
/// was. Stated over what `on_connect` and `on_disconnect` ensure.
pub proof fn law_connect_then_disconnect<T: Message<Result = ()>>(
    r0: Registry<T>,
    r1: Registry<T>,
    r2: Registry<T>,
    pid: u64,
    sender: Sender<T>,
)
    requires
        r1@.contains_key(pid),
        r1@[pid] == sender,
        forall|p: u64| p != pid ==> (#[trigger] r1@.contains_key(p) == r0@.contains_key(p)),
        forall|p: u64| p != pid && r0@.contains_key(p) ==> #[trigger] r1@[p] == r0@[p],
        !r2@.contains_key(pid),
        forall|p: u64| p != pid ==> (#[trigger] r2@.contains_key(p) == r1@.contains_key(p)),
        forall|p: u64| p != pid && r1@.contains_key(p) ==> #[trigger] r2@[p] == r1@[p],
    ensures
        r2@ == r0@.remove(pid),
        !r0@.contains_key(pid) ==> r2@ == r0@,
{
    assert(r2@ =~= r0@.remove(pid));
    if !r0@.contains_key(pid) {
        assert(r0@.remove(pid) =~= r0@);
    }
}

/// A subscription stays in place, with its sender, when another pid
/// unsubscribes or subscribes. Stated over what `on_disconnect` and
/// `on_connect` ensure.
pub proof fn law_subscription_survives_others<T: Message<Result = ()>>(
    r0: Registry<T>,
    r1: Registry<T>,
    r2: Registry<T>,
    pid: u64,
    other: u64,
    other_sender: Sender<T>,
)
    requires
        r0@.contains_key(pid),
        other != pid,
        !r1@.contains_key(other),
        forall|p: u64| p != other ==> (#[trigger] r1@.contains_key(p) == r0@.contains_key(p)),
        forall|p: u64| p != other && r0@.contains_key(p) ==> #[trigger] r1@[p] == r0@[p],
        r2@.contains_key(other),
        r2@[other] == other_sender,
        forall|p: u64| p != other ==> (#[trigger] r2@.contains_key(p) == r0@.contains_key(p)),
        forall|p: u64| p != other && r0@.contains_key(p) ==> #[trigger] r2@[p] == r0@[p],
    ensures
        r1@.contains_key(pid),
        r1@[pid] == r0@[pid],
        r2@.contains_key(pid),
        r2@[pid] == r0@[pid],
{
}

/// Whatever pid an actor connects under (0 included), a message published
/// afterwards is handed to the sender it connected with: the publish report
/// has exactly one entry for that pid, and its answer is one that sender
/// may give to a copy of the message. Stated over what `on_connect` and
/// `on_publish` ensure.
pub proof fn law_connected_pid_receives_publications<T: Message<Result = ()> + Clone>(
    r1: Registry<T>,
    pid: u64,
    sender: Sender<T>,
    item: T,
    report: Seq<(u64, Result<(), anyhow::Error>)>,
)
    requires
        r1@.contains_key(pid),
        r1@[pid] == sender,
        report.len() == r1@.dom().len(),
        forall|i: int, j: int| 0 <= i < j < report.len() ==> report[i].0 != report[j].0,
        forall|p: u64| #[trigger] r1@.contains_key(p) <==> exists|i: int| 0 <= i < report.len() && report[i].0 == p,
        forall|i: int| #![trigger report[i]] 0 <= i < report.len() ==> r1.answered(item, report[i].0, report[i].1),
    ensures
        exists|i: int| 0 <= i < report.len() && report[i].0 == pid,
        forall|i: int| 0 <= i < report.len() && report[i].0 == pid ==> exists|copy: T| cloned(item, copy) && #[trigger] sender.send_fn.sends(copy, report[i].1),
        forall|i: int, j: int| 0 <= i < report.len() && 0 <= j < report.len() && report[i].0 == pid && report[j].0 == pid ==> i == j,
{
    assert(r1@.contains_key(pid));
    assert forall|i: int| 0 <= i < report.len() && report[i].0 == pid implies exists|copy: T| cloned(item, copy) && #[trigger] sender.send_fn.sends(copy, report[i].1) by {
        assert(r1.answered(item, report[i].0, report[i].1));
    }
}

/// The running instance of each service, keyed by the service's type.
#[verifier::reject_recursive_types(K)]
#[verifier::reject_recursive_types(V)]
pub struct ServiceRegistry<K, V> {
    pub services: HashMap<K, V>,
}

impl<K, V> View for ServiceRegistry<K, V> {
    type V = Map<K, V>;

    open spec fn view(&self) -> Map<K, V> {
        self.services@
    }
}

impl<K, V> ServiceRegistry<K, V> {
    /// `after` is this table with `value` recorded as the instance running
    /// for `key`, and every other entry as it was.
    pub open spec fn records(&self, after: &Self, key: K, value: V) -> bool {
        after@ == self@.insert(key, value)
    }
}

impl<K: Eq + Hash, V> ServiceRegistry<K, V> {
    /// A table without services.
    pub fn new() -> (r: Self)
        ensures
            r@ == Map::<K, V>::empty(),
    {
        ServiceRegistry { services: HashMap::new() }
    }

    /// The instance running for `key`, if one was registered. This holds of
    /// key types whose equality and hashing agree, as `TypeId`'s do.
    pub fn lookup(&self, key: &K) -> (r: Option<&V>)
        ensures
            vstd::std_specs::hash::obeys_key_model::<K>() ==> match r {
                Some(v) => self@.contains_key(*key) && self@[*key] == *v,
                None => !self@.contains_key(*key),
            },
    {
        self.services.get(key)
    }

    /// Records `value` as the instance running for `key`.
    pub fn register(&mut self, key: K, value: V)
        ensures
            vstd::std_specs::hash::obeys_key_model::<K>() ==> old(self).records(final(self), key, value),
            vstd::std_specs::hash::obeys_key_model::<K>() ==> final(self)@.contains_key(key) && final(self)@[key] == value,
    {
        let _previous = self.services.insert(key, value);
    }
}

/// Once a service instance is recorded for a key, the table holds exactly
/// that instance for it (which is what `lookup` returns), and recording
/// another key afterwards does not disturb it.
pub proof fn law_registered_service_is_found<K, V>(
    s0: ServiceRegistry<K, V>,
    s1: ServiceRegistry<K, V>,
    s2: ServiceRegistry<K, V>,
    key: K,
    value: V,
    other: K,
    other_value: V,
)
    requires
        s0.records(&s1, key, value),
        s1.records(&s2, other, other_value),
        other != key,
    ensures
        s1@.contains_key(key),
        s1@[key] == value,
        s2@.contains_key(key),
        s2@[key] == value,
{
}

} // verus!
