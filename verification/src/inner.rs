//! The state behind a handle and the worker's receiving side.
use vstd::prelude::*;
use crossbeam_channel::{Receiver, RecvError, SendError, Sender};

verus! {

/// Where a value given to `dropout` ends.
#[derive(Clone, Copy, Debug, PartialEq, Eq, Structural)]
pub enum Fate {
    /// The queue took the value: the worker destroys it later.
    Deferred,
    /// The queue refused the value: it was destroyed on the spot, by the caller.
    Immediate,
}

/// The fate of a value, by whether the queue took it. The queue takes a value as long as
/// the receiving side exists.
pub open spec fn fate_when(taken: bool) -> Fate {
    if taken {
        Fate::Deferred
    } else {
        Fate::Immediate
    }
}

/// Ends a send. A value that the queue handed back is destroyed here, in the calling thread.
pub fn settle<T>(outcome: Result<(), SendError<T>>) -> (fate: Fate)
    ensures
        fate == fate_when(outcome.is_ok()),
{
    match outcome {
        Ok(()) => Fate::Deferred,
        Err(SendError(_refused)) => Fate::Immediate,
    }
}

/// Ends a receive. A value that arrived is destroyed here, in the worker's thread; the
/// result says whether the worker goes on.
pub fn absorb<T>(received: Result<T, RecvError>) -> (more: bool)
    ensures
        more == received.is_ok(),
{
    match received {
        Ok(_value) => true,
        Err(_) => false,
    }
}

/// The receiving side of one queue. There is one per queue, and it cannot be duplicated.
#[verifier::reject_recursive_types(T)]
pub struct Worker<T> {
    receiver: Receiver<T>,
}

impl<T> Worker<T> {
    /// The receiving endpoint that this worker holds.
    pub closed spec fn receiver(&self) -> Receiver<T> {
        self.receiver
    }

    /// One turn of the worker: blocks until a value arrives or the queue is closed and
    /// empty. A value that arrives is destroyed before this returns `true`; `false` means
    /// that the queue is closed and drained, and that the worker is done.
    ///
    /// The turn is one receive on this worker's endpoint, and the worker goes on exactly
    /// when that receive brought a value. What the receive brings is the queue's to say.
    pub fn step(&self) -> (more: bool)
        ensures
            exists|received: Result<T, RecvError>|
                call_ensures(Receiver::<T>::recv, (&self.receiver(),), received) && more
                    == received.is_ok(),
    {
        let received = self.receiver.recv();
        assert(call_ensures(Receiver::<T>::recv, (&self.receiver(),), received));
        absorb(received)
    }
}

/// The state that all clones of one handle share: the sending endpoint of the queue and
/// the handle to the worker's execution context, each present until `shutdown` takes it.
#[verifier::reject_recursive_types(T)]
pub struct Dropper<T: Send, W> {
    drop_sender: Option<Sender<T>>,
    thread_handle: Option<W>,
}

impl<T: Send, W> Dropper<T, W> {
    /// The sending endpoint is still held: values can still be queued.
    pub closed spec fn is_active(&self) -> bool {
        self.drop_sender.is_some()
    }

    /// The handle to the worker's execution context, until `shutdown` has taken it.
    pub closed spec fn thread_handle(&self) -> Option<W> {
        self.thread_handle
    }

    /// The sending endpoint, while the state is active.
    pub closed spec fn sender(&self) -> Sender<T>
        recommends
            self.is_active(),
    {
        self.drop_sender.unwrap()
    }

    /// Creates the queue and starts its worker: `spawn` is called once, with the
    /// receiving side, and what it returns is kept as the handle to the worker's
    /// execution context.
    ///
    /// The two endpoints are those of one queue without a capacity limit: the state keeps
    /// the sending one, and the worker given to `spawn` holds the receiving one.
    pub fn new<F: FnOnce(Worker<T>) -> W>(spawn: F) -> (dropper: Self)
        requires
            forall|worker: Worker<T>| spawn.requires((worker,)),
        ensures
            dropper.is_active(),
            exists|ends: (Sender<T>, Receiver<T>), worker: Worker<T>, handle: W|
                call_ensures(crossbeam_channel::unbounded::<T>, (), ends) && dropper.sender()
                    == ends.0 && worker.receiver() == ends.1 && spawn.ensures(
                    (worker,),
                    handle,
                ) && dropper.thread_handle() == Some(handle),
    {
        let ends = crossbeam_channel::unbounded::<T>();
        let ghost made = ends;
        let (drop_sender, drop_receiver) = ends;
        let worker = Worker { receiver: drop_receiver };
        let ghost given = worker;
        let thread_handle = spawn(worker);
        let ghost started = thread_handle;
        let dropper = Dropper { drop_sender: Some(drop_sender), thread_handle: Some(thread_handle) };
        assert(call_ensures(crossbeam_channel::unbounded::<T>, (), made) && dropper.sender()
            == made.0 && given.receiver() == made.1 && spawn.ensures((given,), started)
            && dropper.thread_handle() == Some(started));
        dropper
    }

    /// Sends the value to be destroyed by the worker, and says where it ended. Where the
    /// receiving side is gone, or the sending endpoint was given up, the value is
    /// destroyed here, before this returns. Never blocks on the queue, which has no
    /// capacity limit.
    ///
    /// On active state the fate is that of one send of this value on this state's
    /// endpoint: deferred exactly when the queue took it. Whether the queue takes it is
    /// the receiving side's to say. Without the endpoint nothing is sent.
    pub fn hand_over(&self, to_drop: T) -> (fate: Fate)
        ensures
            !self.is_active() ==> fate == Fate::Immediate,
            self.is_active() ==> exists|outcome: Result<(), SendError<T>>|
                call_ensures(Sender::<T>::send, (&self.sender(), to_drop), outcome) && fate
                    == fate_when(outcome.is_ok()),
    {
        match &self.drop_sender {
            Some(sender) => settle(sender.send(to_drop)),
            None => settle(Err(SendError(to_drop))),
        }
    }

    /// Sends the value to be destroyed by the worker. Where the receiving side is gone,
    /// or the sending endpoint was given up, the value is destroyed here instead. The
    /// caller is not told which: the value is destroyed either way.
    ///
    /// On active state one send of this value on this state's endpoint is made. The
    /// queue has no capacity limit, so the send does not wait, however long the backlog.
    pub fn dropout(&self, to_drop: T)
        ensures
            self.is_active() ==> exists|outcome: Result<(), SendError<T>>|
                call_ensures(Sender::<T>::send, (&self.sender(), to_drop), outcome),
    {
        let _fate = self.hand_over(to_drop);
    }

    /// Gives up the sending endpoint, which closes the queue once no other holds it, and
    /// hands out the handle to the worker's execution context. Each happens once: a
    /// second call finds nothing to close and returns `None`.
    pub fn shutdown(&mut self) -> (handle: Option<W>)
        ensures
            !final(self).is_active(),
            final(self).thread_handle() is None,
            handle == old(self).thread_handle(),
        opens_invariants none
        no_unwind
    {
        self.drop_sender = None;
        let mut handle = None;
        core::mem::swap(&mut self.thread_handle, &mut handle);
        handle
    }
}

impl<T: Send, W> Drop for Dropper<T, W> {
    /// Gives up the sending endpoint, which closes the queue, then takes the handle to
    /// the worker's execution context and releases it. In that order: a handle that
    /// waits for the worker on release waits for a worker that the closed queue lets end.
    fn drop(&mut self)
        ensures
            !final(self).is_active(),
            final(self).thread_handle() is None,
        opens_invariants none
        no_unwind
    {
        let _handle = self.shutdown();
    }
}

} // verus!
