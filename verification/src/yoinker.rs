use vstd::prelude::*;

use std::sync::Arc;

verus! {

// A socket is lent to the notarization subprotocol through a weak shared
// handle and reclaimed afterwards.  The mutex is opaque here, and the weak
// reference sits behind `WeakHandle`, whose declaration Verus refuses
// (its allocator parameter cannot be written on stable Rust); the polling
// adapter that drives I/O through the weak handle lives with the rest of
// the I/O plumbing, outside the library.

#[verifier::external_type_specification]
#[verifier::external_body]
#[verifier::reject_recursive_types(T)]
pub struct ExMutex<T: ?Sized>(std::sync::Mutex<T>);

/// A weak handle on a lent stream.
#[verifier::external_body]
#[verifier::reject_recursive_types(T)]
pub struct WeakHandle<T> {
    weak: std::sync::Weak<std::sync::Mutex<T>>,
}

impl<T> WeakHandle<T> {
    /// Relies on std's `Weak::upgrade`: a strong handle while the owner
    /// still holds the allocation.
    #[verifier::external_body]
    pub fn upgrade(&self) -> Option<Arc<std::sync::Mutex<T>>> {
        self.weak.upgrade()
    }
}

/// Relies on std's `Mutex::new`: it wraps the value.
#[verifier::external_body]
fn mutex_new<T>(value: T) -> std::sync::Mutex<T> {
    std::sync::Mutex::new(value)
}

/// Relies on std's `Arc::downgrade`: a weak handle on the same allocation.
#[verifier::external_body]
fn arc_downgrade<T>(arc: &Arc<std::sync::Mutex<T>>) -> WeakHandle<T> {
    WeakHandle { weak: Arc::downgrade(arc) }
}

/// Relies on std's `Arc::try_unwrap` and `Mutex::into_inner`: the value
/// comes back when this is the last strong handle and the lock is not
/// poisoned.
#[verifier::external_body]
fn arc_unwrap_mutex<T>(arc: Arc<std::sync::Mutex<T>>) -> Option<T> {
    match Arc::try_unwrap(arc) {
        Ok(m) => m.into_inner().ok(),
        Err(_) => None,
    }
}

/// The owning side of a lent stream: it can take the stream back once the
/// borrower is done.
#[verifier::reject_recursive_types(T)]
pub struct IoYoinker<T> {
    arc: Arc<std::sync::Mutex<T>>,
}

/// The borrowing side of a lent stream: a weak handle the I/O adapter
/// polls through while the owner keeps the stream alive.
#[verifier::reject_recursive_types(T)]
pub struct IoBoinker<T> {
    pub shared: WeakHandle<T>,
}

impl<T> IoYoinker<T> {
    /// Lends `value`: the owner handle, and a weak borrower handle.
    pub fn new_yoinker(value: T) -> (IoYoinker<T>, IoBoinker<T>) {
        let arc = Arc::new(mutex_new(value));
        let weak = arc_downgrade(&arc);
        (IoYoinker { arc }, IoBoinker { shared: weak })
    }

    /// Takes the value back; `None` if a borrower still holds it strongly
    /// or the lock was poisoned.
    pub fn yoink(self) -> Option<T> {
        arc_unwrap_mutex(self.arc)
    }
}

} // verus!
