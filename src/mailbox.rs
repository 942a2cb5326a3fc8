//! The std synchronisation primitives that actors are built from, with what
//! this library relies on of each.
use std::sync::mpsc::{Receiver, Sender};
use std::sync::{Condvar, Mutex, MutexGuard};
use vstd::prelude::*;

verus! {

/// `std::sync::mpsc::Sender`, the sending end of a mailbox, carried opaque.
#[verifier::external_type_specification]
#[verifier::external_body]
#[verifier::reject_recursive_types(T)]
pub struct ExSender<T>(Sender<T>);

/// `std::sync::mpsc::Receiver`, the receiving end of a mailbox, carried opaque.
#[verifier::external_type_specification]
#[verifier::external_body]
#[verifier::reject_recursive_types(T)]
pub struct ExReceiver<T>(Receiver<T>);

/// `std::sync::Mutex`, which guards the "dead" flag, carried opaque.
#[verifier::external_type_specification]
#[verifier::external_body]
#[verifier::reject_recursive_types(T)]
pub struct ExMutex<T: ?Sized>(Mutex<T>);

/// `std::sync::MutexGuard`, a held lock, carried opaque.
#[verifier::external_type_specification]
#[verifier::external_body]
#[verifier::reject_recursive_types(T)]
pub struct ExMutexGuard<'a, T: ?Sized + 'a>(MutexGuard<'a, T>);

/// `std::sync::Condvar`, on which waiters for a death sleep, carried opaque.
#[verifier::external_type_specification]
#[verifier::external_body]
pub struct ExCondvar(Condvar);

/// Relies on `std::sync::mpsc::channel`: a fresh unbounded mailbox, as its two
/// ends. Nothing is stated of them.
pub assume_specification<T>[ std::sync::mpsc::channel::<T> ]() -> (Sender<T>, Receiver<T>);

/// Relies on `Sender::clone`: one more sending end of the same mailbox.
pub assume_specification<T>[ <Sender<T> as Clone>::clone ](s: &Sender<T>) -> Sender<T>;

/// Relies on `Mutex::new`: an unlocked mutex around a value.
pub assume_specification<T>[ Mutex::<T>::new ](t: T) -> Mutex<T>;

/// Relies on `Condvar::new`: a condition variable with no waiter.
pub assume_specification[ Condvar::new ]() -> Condvar;

/// Relies on `Condvar::notify_all`: wakes every thread waiting on it.
pub assume_specification[ Condvar::notify_all ](c: &Condvar);

/// What a non-blocking look at a mailbox found.
pub enum Polled<T> {
    /// The oldest pending item, now taken.
    Got(T),
    /// Nothing is pending, but some sender is still alive.
    Empty,
    /// Nothing is pending and every sender is gone.
    Closed,
}

/// Relies on `Sender::send`: enqueues `item`, or hands it back when the
/// receiving end is gone. The result says whether it was enqueued.
#[verifier::external_body]
pub(crate) fn post<T>(tx: &Sender<T>, item: T) -> (accepted: bool) {
    tx.send(item).is_ok()
}

/// Relies on `Receiver::recv`: blocks until an item is pending and takes it;
/// `None` once every sender is gone and nothing is pending.
#[verifier::external_body]
pub(crate) fn receive<T>(rx: &Receiver<T>) -> (r: Option<T>) {
    rx.recv().ok()
}

/// Relies on `Receiver::try_recv`: takes the oldest pending item without blocking.
#[verifier::external_body]
pub(crate) fn poll<T>(rx: &Receiver<T>) -> (r: Polled<T>) {
    match rx.try_recv() {
        Ok(item) => Polled::Got(item),
        Err(std::sync::mpsc::TryRecvError::Empty) => Polled::Empty,
        Err(std::sync::mpsc::TryRecvError::Disconnected) => Polled::Closed,
    }
}

/// Relies on `Mutex::lock`: blocks until the lock is held. A lock poisoned by
/// a panicking holder still hands its guard over, since a flag is never left
/// half-written.
#[verifier::external_body]
pub(crate) fn lock_flag(m: &Mutex<bool>) -> (g: MutexGuard<'_, bool>) {
    match m.lock() {
        Ok(g) => g,
        Err(poisoned) => poisoned.into_inner(),
    }
}

/// Relies on `MutexGuard`'s `DerefMut`: writes `value` into the locked flag.
#[verifier::external_body]
pub(crate) fn write_flag(g: &mut MutexGuard<'_, bool>, value: bool) {
    **g = value;
}

/// Whether a flag that says "dead" still says "alive".
pub(crate) fn still_alive(dead: &mut bool) -> (r: bool)
    ensures
        r == !*old(dead),
        *final(dead) == *old(dead),
{
    !*dead
}

/// Relies on `Condvar::wait_while`: releases the lock, sleeps while the flag
/// says "alive" and takes the lock back once it says "dead".
#[verifier::external_body]
pub(crate) fn wait_until_set<'a>(c: &Condvar, g: MutexGuard<'a, bool>) -> (r: MutexGuard<'a, bool>) {
    match c.wait_while(g, still_alive) {
        Ok(g) => g,
        Err(poisoned) => poisoned.into_inner(),
    }
}

} // verus!
