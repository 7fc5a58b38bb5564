use vstd::prelude::*;
use futures::channel::oneshot::Sender;

verus! {

#[verifier::external_type_specification]
#[verifier::external_body]
#[verifier::reject_recursive_types(T)]
pub struct ExSender<T>(Sender<T>);

/// Relies on futures' `oneshot::Sender::send`: it consumes the sender and,
/// when the receiving side is gone, hands the very value back in `Err`.
/// Whether the receiver is still there is outside state, so nothing is
/// promised about which of `Ok` and `Err` comes back.
#[verifier::external_body]
pub(crate) fn send_to_waiter<T>(waiter: Sender<T>, value: T) -> (r: Result<(), T>)
    ensures
        r matches Err(v) ==> v == value,
{
    waiter.send(value)
}

} // verus!
