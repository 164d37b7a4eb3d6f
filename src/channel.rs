//! The sending half of the unbounded queues that link the event side, the
//! worker and the reply side.

use vstd::prelude::*;

use tokio::sync::mpsc::UnboundedSender;

verus! {

#[verifier::external_type_specification]
#[verifier::external_body]
#[verifier::reject_recursive_types(T)]
pub struct ExUnboundedSender<T>(UnboundedSender<T>);

/// Relies on tokio's `Clone` for `UnboundedSender`: a second handle on the
/// same queue. Nothing is stated of it.
pub assume_specification<T>[ <UnboundedSender<T> as Clone>::clone ](tx: &UnboundedSender<T>) -> UnboundedSender<T>;

/// Relies on tokio's `UnboundedSender::send`: it never waits, and when the
/// receiving half is closed it fails and hands the message back unchanged.
#[verifier::external_body]
pub(crate) fn send_message<T>(tx: &UnboundedSender<T>, message: T) -> (r: Result<(), T>)
    ensures
        r matches Err(m) ==> m == message,
{
    tx.send(message).map_err(|e| e.0)
}

} // verus!
