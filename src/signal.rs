use vstd::prelude::*;
use sync_tokens::completion_token::{Completable, CompletionToken};
use crate::delivery::{set_signal, Sent};

verus! {

#[verifier::external_type_specification]
#[verifier::external_body]
#[verifier::reject_recursive_types(T)]
pub struct ExCompletable<T>(Completable<T>);

#[verifier::external_type_specification]
#[verifier::external_body]
#[verifier::reject_recursive_types(T)]
pub struct ExCompletionToken<T>(CompletionToken<T>);

/// Relies on `sync_tokens::completion_token::CompletionToken::new`: a fresh,
/// unset signal with its awaitable side and the one handle that can set it.
#[verifier::external_body]
fn new_signal<T>() -> (CompletionToken<T>, Completable<T>) {
    CompletionToken::new()
}

/// The write side of a one-shot startup signal: it sets the signal at most
/// once, and a later attempt has no effect.
#[verifier::reject_recursive_types(T)]
pub struct Announcer<T> {
    handle: Option<Completable<T>>,
    sent: Option<Sent<T>>,
}

impl<T> Announcer<T> {
    /// The signal has been set through this announcer.
    pub closed spec fn spent(&self) -> bool {
        self.handle is None
    }

    /// The value this announcer handed to the signal, if it did.
    pub closed spec fn announced(&self) -> Option<T> {
        match self.sent {
            Some(w) => Some(w.value()),
            None => None,
        }
    }

    /// A fresh signal: its awaitable side, and an announcer that has not
    /// set it yet.
    pub fn new_pair() -> (r: (CompletionToken<T>, Announcer<T>))
        ensures
            !r.1.spent(),
            r.1.announced() == None::<T>,
    {
        let (token, handle) = new_signal();
        (token, Announcer { handle: Some(handle), sent: None })
    }

    /// Whether the signal has been set through this announcer.
    pub fn is_spent(&self) -> (r: bool)
        ensures
            r == self.spent(),
    {
        self.handle.is_none()
    }

    /// Sets the signal to `value` unless it was set before. Returns whether
    /// this call set it.
    pub fn announce(&mut self, value: T) -> (r: bool)
        ensures
            r == !old(self).spent(),
            final(self).spent(),
            r ==> final(self).announced() == Some(value),
            !r ==> final(self).announced() == old(self).announced(),
    {
        match self.handle.take() {
            Some(handle) => {
                self.sent = Some(set_signal(handle, value));
                true
            },
            None => false,
        }
    }
}

} // verus!
