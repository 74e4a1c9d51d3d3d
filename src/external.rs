//! Outside items the library relies on: std's mutex and task waker, and the
//! single-slot wake cell of the futures crate.
use std::sync::{Arc, Mutex, MutexGuard};
use std::task::Waker;
use futures::task::AtomicWaker;
use vstd::prelude::*;
use crate::log::{is_other_reader, without_reader};

verus! {

#[verifier::external_type_specification]
#[verifier::external_body]
#[verifier::reject_recursive_types(T)]
pub struct ExMutex<T: ?Sized>(Mutex<T>);

#[verifier::external_type_specification]
#[verifier::external_body]
#[verifier::reject_recursive_types(T)]
pub struct ExMutexGuard<'a, T: ?Sized + 'a>(MutexGuard<'a, T>);

#[verifier::external_type_specification]
#[verifier::external_body]
pub struct ExAtomicWaker(AtomicWaker);

#[verifier::external_type_specification]
#[verifier::external_body]
pub struct ExWaker(Waker);

/// Relies on `Arc::clone`: another pointer to the same allocation.
#[verifier::external_body]
pub(crate) fn share<T>(a: &Arc<T>) -> (r: Arc<T>)
    ensures
        r == *a,
{
    Arc::clone(a)
}

/// Relies on std's `Mutex::new`: it wraps a value in an unlocked mutex.
pub assume_specification<T>[ Mutex::<T>::new ](t: T) -> Mutex<T>;

/// Relies on `AtomicWaker::new`: an empty wake slot.
pub assume_specification[ AtomicWaker::new ]() -> AtomicWaker;

/// Relies on `AtomicWaker::wake`: wakes and clears the registered waker, if any.
pub assume_specification[ AtomicWaker::wake ](slot: &AtomicWaker);

/// Relies on `AtomicWaker::register`: replaces the waker held in the slot.
pub assume_specification[ AtomicWaker::register ](slot: &AtomicWaker, waker: &Waker);

/// Relies on std's `Mutex::lock`: blocks until the lock is held, and reports
/// a lock poisoned by a thread that panicked while holding it (`None`). The
/// library never locks a log while it holds it already: no code of another
/// crate runs under the lock but a wake slot's `register`.
#[verifier::external_body]
pub(crate) fn lock<T>(m: &Arc<Mutex<T>>) -> Option<MutexGuard<'_, T>>
    opens_invariants none
    no_unwind
{
    match m.lock() {
        Ok(g) => Some(g),
        Err(_) => None,
    }
}

/// Relies on `MutexGuard`'s `DerefMut`: the value guarded by a held lock.
#[verifier::external_body]
pub(crate) fn guarded<'a, 'b, T>(g: &'a mut MutexGuard<'b, T>) -> &'a mut T
    opens_invariants none
    no_unwind
{
    &mut *g
}

/// Relies on std's `Vec::retain`: keeps, in their order, exactly the entries
/// for which the predicate holds; here those of readers other than `id`.
#[verifier::external_body]
pub(crate) fn retain_other_readers(wakers: &mut Vec<(usize, Arc<AtomicWaker>)>, id: usize)
    ensures
        final(wakers)@ == without_reader(old(wakers)@, id),
    opens_invariants none
    no_unwind
{
    wakers.retain(|e| is_other_reader(e, id))
}

} // verus!
