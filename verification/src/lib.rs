//! Sends values to a background worker to be destroyed there, so that the thread that
//! gives a value away does not pay for its destruction.
//!
//! A [`Dropper`] is the handle that producers hold. It can be cloned cheaply and shared
//! between threads; all clones feed one unbounded queue, which one worker empties.
//! Values are destroyed in the order in which the queue received them.
//!
//! The library starts no thread itself. `new` is given the function that starts the
//! worker's execution context: it receives the [`inner::Worker`], whose `step` is to be
//! called until it returns `false`, and returns whatever stands for that context. When the
//! last clone is released the queue is closed and that value is released after it; where
//! its release waits for the context to end, the release of the last clone returns only
//! after everything queued has been destroyed.
use vstd::prelude::*;
use std::sync::Arc;
use crossbeam_channel::{Receiver, SendError, Sender};

pub mod channel;
pub mod inner;
pub mod lifecycle;

verus! {

/// `Arc::clone` makes another pointer to the same allocation and counts it. Claimed: the
/// new pointer leads to the value that the old one leads to.
#[verifier::external_body]
fn share<S>(owner: &Arc<S>) -> (other: Arc<S>)
    ensures
        other == *owner,
{
    Arc::clone(owner)
}

/// A handle that sends values to a background worker to be destroyed there.
///
/// There is one queue and one worker per call of `new`, however many clones of the
/// handle exist. The queue is unbounded: where values arrive faster than the worker
/// destroys them, the backlog grows without limit.
#[verifier::reject_recursive_types(T)]
pub struct Dropper<T: Send, W>(Arc<inner::Dropper<T, W>>);

impl<T: Send, W> Dropper<T, W> {
    /// The state that this handle shares with its clones.
    pub closed spec fn shared(&self) -> inner::Dropper<T, W> {
        *self.0
    }

    /// Creates a handle with a queue and a worker of its own. `spawn` is called once, with
    /// the receiving side of the queue: it starts the execution context that runs the
    /// worker and returns the handle to it.
    ///
    /// The two endpoints are those of one queue without a capacity limit: the shared
    /// state keeps the sending one, and the worker given to `spawn` holds the receiving
    /// one.
    pub fn new<F: FnOnce(inner::Worker<T>) -> W>(spawn: F) -> (dropper: Self)
        requires
            forall|worker: inner::Worker<T>| spawn.requires((worker,)),
        ensures
            dropper.shared().is_active(),
            exists|ends: (Sender<T>, Receiver<T>), worker: inner::Worker<T>, handle: W|
                call_ensures(crossbeam_channel::unbounded::<T>, (), ends)
                    && dropper.shared().sender() == ends.0 && worker.receiver() == ends.1
                    && spawn.ensures((worker,), handle) && dropper.shared().thread_handle()
                    == Some(handle),
    {
        Dropper(Arc::new(inner::Dropper::new(spawn)))
    }

    /// Sends a value to be destroyed by the worker.
    ///
    /// Where the receiving side is gone (a value's destruction faulted in the worker, say),
    /// the value is destroyed in the calling thread instead.
    ///
    /// While the shared state is active, one send of this value on its endpoint is made.
    /// The queue has no capacity limit, so the send does not wait, however long the
    /// backlog.
    pub fn dropout(&self, to_drop: T)
        ensures
            self.shared().is_active() ==> exists|outcome: Result<(), SendError<T>>|
                call_ensures(Sender::<T>::send, (&self.shared().sender(), to_drop), outcome),
    {
        self.0.dropout(to_drop)
    }
}

impl<T: Send, W> Clone for Dropper<T, W> {
    /// Another owner of the same shared state: no queue and no worker is created.
    fn clone(&self) -> (other: Self)
        ensures
            other == *self,
    {
        Dropper(share(&self.0))
    }
}

} // verus!
