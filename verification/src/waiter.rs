use vstd::prelude::*;
use crate::conn::Conn;

verus! {

/// A parked checkout caller is represented by the sending half of a one-shot
/// delivery channel; the caller holds the receiving half. The channel comes
/// from an outside crate and is opaque here: a sender is carried through the
/// waiter queue and consumed by a single send attempt.
#[verifier::external_type_specification]
#[verifier::external_body]
#[verifier::reject_recursive_types(T)]
pub struct ExSender<T>(futures_channel::oneshot::Sender<T>);

/// Relies on futures_channel::oneshot::Sender::send: it consumes the sender,
/// returns `Ok(())` when the value was enqueued for the receiver, and returns
/// `Err(t)` carrying the very value back when the receiving half is gone.
/// Which of the two happens depends on the receiver's state, so nothing is
/// promised about it.
pub assume_specification<T>[ futures_channel::oneshot::Sender::<T>::send ](
    s: futures_channel::oneshot::Sender<T>,
    t: T,
) -> (r: Result<(), T>)
    ensures
        r is Err ==> r->Err_0 == t,
;

} // verus!
