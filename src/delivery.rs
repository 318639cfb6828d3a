use vstd::prelude::*;
use sync_tokens::completion_token::Completable;

verus! {

/// Evidence that a value was handed to a startup signal. Only
/// `set_signal` makes one, right after the hand-over.
pub struct Sent<T> {
    value: Ghost<T>,
}

impl<T> Sent<T> {
    /// The value that was handed over.
    pub closed spec fn value(&self) -> T {
        self.value@
    }
}

/// Relies on `sync_tokens::completion_token::Completable::complete`: stores
/// the value and wakes the waiter. It panics when a signal is set twice;
/// taking the handle by value rules that out, since `Completable` is not
/// `Clone` and each signal has exactly one.
#[verifier::external_body]
pub(crate) fn set_signal<T>(handle: Completable<T>, value: T) -> (r: Sent<T>)
    ensures
        r.value() == value,
{
    let ghost v = value;
    handle.complete(value);
    Sent { value: Ghost(v) }
}

} // verus!
