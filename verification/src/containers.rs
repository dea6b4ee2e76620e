//! Wrapping a value for sharing, as the last call of a chain.

use vstd::prelude::*;
use std::rc::Rc;
use std::sync::Arc;
use std::sync::Mutex;

verus! {

/// The mutual-exclusion lock of the standard library. This crate only
/// creates one around a value; it never locks it, and states nothing of what
/// is inside.
#[verifier::external_type_specification]
#[verifier::external_body]
#[verifier::reject_recursive_types(T)]
pub struct ExMutex<T: ?Sized>(std::sync::Mutex<T>);

/// `Mutex::new` of the standard library: returns an unlocked lock that owns
/// `t`. Nothing is claimed of the result.
pub assume_specification<T>[ std::sync::Mutex::<T>::new ](t: T) -> (lock: std::sync::Mutex<T>);

/// Postfix forms of `Arc::new`, `Rc::new` and `Mutex::new`.
pub trait Innable<T>: Sized {
    /// The value that gets wrapped.
    spec fn inner(self) -> T;

    /// Moves the value behind an atomically counted pointer.
    fn in_arc(self) -> (shared: Arc<T>)
        ensures
            *shared == self.inner(),
    ;

    /// Moves the value behind a counted pointer.
    fn in_rc(self) -> (shared: Rc<T>)
        ensures
            *shared == self.inner(),
    ;

    /// Moves the value into a new, unlocked mutual-exclusion lock.
    fn in_mutex(self) -> Mutex<T>;
}

impl<T> Innable<T> for T {
    open spec fn inner(self) -> T {
        self
    }

    fn in_arc(self) -> (shared: Arc<T>) {
        Arc::new(self)
    }

    fn in_rc(self) -> (shared: Rc<T>) {
        Rc::new(self)
    }

    fn in_mutex(self) -> Mutex<T> {
        Mutex::new(self)
    }
}

} // verus!
