//! The table of stream listeners an actor owns: a `slab::Slab` of abort
//! handles, one per forwarding task, each under the key the task announces
//! when its stream ends.
use vstd::prelude::*;

use futures::future::AbortHandle;
use slab::Slab;

use crate::mailbox::abort;

verus! {

/// The slab the listener table lives in (`slab::Slab`), opaque; its
/// contents are named by `listener_keys`.
#[verifier::external_type_specification]
#[verifier::external_body]
#[verifier::reject_recursive_types(T)]
pub struct ExSlab<T>(Slab<T>);

/// The keys under which the table currently holds a listener.
pub uninterp spec fn listener_keys(s: Slab<AbortHandle>) -> Set<usize>;

/// The key the table hands out next (`Slab::vacant_key`, the slab's `next`
/// slot).
pub uninterp spec fn listener_vacant_key(s: Slab<AbortHandle>) -> usize;

/// An empty table (`Slab::new`): it holds no key and hands out key 0 next.
#[verifier::external_body]
pub(crate) fn new_listener_table() -> (s: Slab<AbortHandle>)
    ensures
        listener_keys(s) == Set::<usize>::empty(),
        listener_keys(s).finite(),
        listener_vacant_key(s) == 0,
{
    Slab::new()
}

/// Stores a handle (`Slab::insert`). The slab files it under its next
/// vacant key, which by construction holds no value: the key is fresh, and
/// it is the only key added. A slab holds finitely many keys.
#[verifier::external_body]
pub(crate) fn insert_listener(s: &mut Slab<AbortHandle>, handle: AbortHandle) -> (key: usize)
    ensures
        listener_keys(*old(s)).finite(),
        listener_keys(*final(s)).finite(),
        key == listener_vacant_key(*old(s)),
        !listener_keys(*old(s)).contains(key),
        listener_keys(*final(s)) == listener_keys(*old(s)).insert(key),
{
    s.insert(handle)
}

/// Whether a handle is stored under `key` (`Slab::contains`).
#[verifier::external_body]
pub(crate) fn has_listener(s: &Slab<AbortHandle>, key: usize) -> (r: bool)
    ensures
        r == listener_keys(*s).contains(key),
{
    s.contains(key)
}

/// Takes the handle stored under `key` out of the table (`Slab::remove`,
/// which panics on a vacant key; hence the precondition). The freed key is
/// the one handed out next. A slab holds finitely many keys.
#[verifier::external_body]
pub(crate) fn remove_listener(s: &mut Slab<AbortHandle>, key: usize) -> (h: AbortHandle)
    requires
        listener_keys(*old(s)).contains(key),
    ensures
        listener_keys(*old(s)).finite(),
        listener_keys(*final(s)).finite(),
        listener_vacant_key(*final(s)) == key,
        listener_keys(*final(s)) == listener_keys(*old(s)).remove(key),
{
    s.remove(key)
}

/// The occupied keys in the order `Slab::iter` visits them: ascending slot
/// order, each key once, and exactly the keys of the table.
#[verifier::external_body]
pub(crate) fn occupied_keys(s: &Slab<AbortHandle>) -> (keys: Vec<usize>)
    ensures
        keys@.to_set() == listener_keys(*s),
        forall|i: int, j: int| 0 <= i < j < keys@.len() ==> keys@[i] < keys@[j],
{
    s.iter().map(|(k, _)| k).collect()
}

/// The handle stored under `key`, if any (`Slab::get`).
#[verifier::external_body]
pub(crate) fn listener_at(s: &Slab<AbortHandle>, key: usize) -> (h: Option<&AbortHandle>)
    ensures
        h.is_some() == listener_keys(*s).contains(key),
{
    s.get(key)
}

/// Signals every listener in the table to stop, one per key, and leaves the
/// table itself unchanged. Returns the keys whose handles were signalled,
/// in the order they were: each key of the table exactly once, ascending.
pub fn abort_all(s: &Slab<AbortHandle>) -> (aborted: Vec<usize>)
    ensures
        forall|k: usize| listener_keys(*s).contains(k) <==> #[trigger] aborted@.contains(k),
        forall|i: int, j: int| 0 <= i < j < aborted@.len() ==> aborted@[i] < aborted@[j],
{
    let keys = occupied_keys(s);
    let n: usize = keys.len();
    let mut aborted: Vec<usize> = Vec::new();
    for i in 0..n
        invariant
            n == keys@.len(),
            keys@.to_set() == listener_keys(*s),
            forall|a: int, b: int| 0 <= a < b < keys@.len() ==> keys@[a] < keys@[b],
            aborted@ == keys@.subrange(0, i as int),
    {
        let k: usize = keys[i];
        proof {
            assert(keys@.to_set().contains(keys@[i as int]));
        }
        match listener_at(s, k) {
            Some(h) => {
                abort(h);
                aborted.push(k);
            },
            None => {},
        }
        assert(aborted@ =~= keys@.subrange(0, i + 1));
    }
    proof {
        assert(aborted@ =~= keys@);
        assert forall|k: usize| listener_keys(*s).contains(k) <==> #[trigger] aborted@.contains(k) by {
            if aborted@.contains(k) {
                assert(keys@.to_set().contains(k));
            }
            if listener_keys(*s).contains(k) {
                assert(keys@.to_set().contains(k));
            }
        }
    }
    aborted
}

} // verus!
