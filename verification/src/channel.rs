//! The boundary to `crossbeam_channel`: the two endpoints of an unbounded queue, and what is
//! taken on trust about them.
use vstd::prelude::*;
use crossbeam_channel::{Receiver, RecvError, SendError, Sender};

verus! {

/// `crossbeam_channel::Sender`, the sending endpoint of a channel. Nothing inside it is
/// visible to a proof.
#[verifier::external_type_specification]
#[verifier::external_body]
#[verifier::reject_recursive_types(T)]
pub struct ExSender<T>(Sender<T>);

/// `crossbeam_channel::Receiver`, the receiving endpoint of a channel. Nothing inside it is
/// visible to a proof.
#[verifier::external_type_specification]
#[verifier::external_body]
#[verifier::reject_recursive_types(T)]
pub struct ExReceiver<T>(Receiver<T>);

/// `crossbeam_channel::SendError`, which carries the message that could not be sent in its
/// one public field.
#[verifier::external_type_specification]
pub struct ExSendError<T>(SendError<T>);

/// `crossbeam_channel::RecvError`, the unit error of a receive on a channel that is empty
/// and disconnected.
#[verifier::external_type_specification]
pub struct ExRecvError(RecvError);

/// `crossbeam_channel::unbounded` creates a channel without a capacity limit and returns
/// its two endpoints. Nothing is claimed of them.
pub assume_specification<T>[ crossbeam_channel::unbounded::<T> ]() -> (ends: (
    Sender<T>,
    Receiver<T>,
));

/// `crossbeam_channel::Sender::send` moves the message into the channel, or, where the
/// channel is disconnected, hands it back inside the error. On a channel without a
/// capacity limit, the only kind that this library creates, it does not wait. Claimed: a
/// message that comes back is the one that was given. Whether it comes back depends on
/// the receiving side and is left open.
pub assume_specification<T>[ Sender::<T>::send ](sender: &Sender<T>, msg: T) -> (outcome: Result<
    (),
    SendError<T>,
>)
    ensures
        outcome matches Err(refused) ==> refused.0 == msg,
;

/// `crossbeam_channel::Receiver::recv` blocks until a message arrives or the channel is
/// empty and disconnected, so it returns only once one of the two has happened. Nothing
/// is claimed of what it returns: that depends on the sending side.
pub assume_specification<T>[ Receiver::<T>::recv ](receiver: &Receiver<T>) -> (outcome: Result<
    T,
    RecvError,
>);

} // verus!
