//! The handle by which windows share one backing stream: a reference-counted mutex of the
//! standard library. What is taken on trust of it stands here, each item with what it claims.

use std::sync::Arc;
use std::sync::LockResult;
use std::sync::Mutex;
use std::sync::MutexGuard;
use std::sync::PoisonError;
use vstd::prelude::*;

verus! {

/// `std::sync::Mutex`, as a value that is carried along and never looked into.
#[verifier::external_type_specification]
#[verifier::external_body]
#[verifier::reject_recursive_types(T)]
pub struct ExMutex<T: ?Sized>(Mutex<T>);

/// `std::sync::MutexGuard`, as a value that is carried along and never looked into.
#[verifier::external_type_specification]
#[verifier::external_body]
#[verifier::reject_recursive_types(T)]
pub struct ExMutexGuard<'a, T: ?Sized + 'a>(MutexGuard<'a, T>);

/// `std::sync::PoisonError`, as a value that is carried along and never looked into.
#[verifier::external_type_specification]
#[verifier::external_body]
#[verifier::reject_recursive_types(T)]
pub struct ExPoisonError<T>(PoisonError<T>);

/// `Mutex::new`: nothing is claimed of the mutex it makes.
pub assume_specification<T>[ Mutex::<T>::new ](value: T) -> (mutex: Mutex<T>)
;

/// `Mutex::lock`: waits until the mutex is free and takes it. Nothing is claimed of what
/// comes back, neither which of the two it is nor what the mutex guards. A thread that holds
/// the mutex already must not ask again: the standard library leaves open whether the call
/// then panics or never returns.
pub assume_specification<'a, T: ?Sized>[ Mutex::<T>::lock ](mutex: &'a Mutex<T>) -> (result:
    LockResult<MutexGuard<'a, T>>)
;

/// `PoisonError::into_inner`: the guard that the error carries. Nothing is claimed of it.
pub assume_specification<T>[ PoisonError::<T>::into_inner ](error: PoisonError<T>) -> (inner: T)
;

/// `Arc::clone`: the new handle points to the same mutex as the one it was made from.
#[verifier::external_body]
pub(crate) fn share<T>(handle: &Arc<Mutex<T>>) -> (shared: Arc<Mutex<T>>)
    ensures
        shared == *handle,
{
    Arc::clone(handle)
}

/// `DerefMut::deref_mut` of a `MutexGuard`: the guarded value, for as long as the guard is
/// borrowed. Nothing is claimed of it.
#[verifier::external_body]
pub(crate) fn locked<'a, 'b, T>(guard: &'a mut MutexGuard<'b, T>) -> (value: &'a mut T) {
    &mut **guard
}

/// Waits for the mutex and takes it. One that a panicking holder left poisoned is taken all
/// the same: the stream behind it is still the stream. The windows of this crate let the
/// guard go before they return, and ask for no second one while they hold it.
pub(crate) fn acquire<'a, T>(mutex: &'a Mutex<T>) -> (guard: MutexGuard<'a, T>) {
    match mutex.lock() {
        Ok(guard) => guard,
        Err(poisoned) => poisoned.into_inner(),
    }
}

} // verus!
