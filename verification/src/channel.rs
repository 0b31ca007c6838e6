//! Trusted boundary around the one-shot channel collaborator.
//!
//! The container/handle pair composes a one-shot, single-producer,
//! single-consumer handoff channel. The channel is an external primitive the
//! pair relies on for synchronization, not something reimplemented here, so
//! the declarations in this module state only what its source shows.

use vstd::prelude::*;

verus! {

#[verifier::external_type_specification]
#[verifier::external_body]
#[verifier::reject_recursive_types(T)]
pub struct ExSender<T>(tokio::sync::oneshot::Sender<T>);

#[verifier::external_type_specification]
#[verifier::external_body]
#[verifier::reject_recursive_types(T)]
pub struct ExReceiver<T>(tokio::sync::oneshot::Receiver<T>);

#[verifier::external_type_specification]
#[verifier::external_body]
pub struct ExRecvError(tokio::sync::oneshot::error::RecvError);

/// Relies on tokio::sync::oneshot::channel: constructs a fresh connected
/// sender/receiver pair; infallible.
#[verifier::external_body]
pub(crate) fn oneshot_pair<T>() -> (
    tokio::sync::oneshot::Sender<T>,
    tokio::sync::oneshot::Receiver<T>,
) {
    tokio::sync::oneshot::channel()
}

/// Relies on tokio::sync::oneshot::Sender::send: hands the value to the
/// paired receiver, or returns it back unchanged when the receiver was
/// already dropped; it never blocks and never panics.
#[verifier::external_body]
pub(crate) fn oneshot_send<T>(
    sender: tokio::sync::oneshot::Sender<T>,
    value: T,
) -> (outcome: Result<(), T>)
    ensures
        outcome matches Err(v) ==> v == value,
    opens_invariants none
    no_unwind
{
    sender.send(value)
}

/// Relies on tokio::sync::oneshot::Receiver::blocking_recv: parks the calling
/// thread until the paired sender either delivers a value (`Ok`) or is
/// dropped without having sent one (`Err`). Tokio panics when this is called
/// from inside an asynchronous execution context, so it is reached only
/// through the handle's synchronous receive, which documents that restriction.
#[verifier::external_body]
pub(crate) fn oneshot_blocking_recv<T>(
    receiver: tokio::sync::oneshot::Receiver<T>,
) -> Result<T, tokio::sync::oneshot::error::RecvError> {
    receiver.blocking_recv()
}

} // verus!
