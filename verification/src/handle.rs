//! The awaitable half of the pair: a handle that resolves to the contents of
//! its paired container once the container is consumed.

use vstd::prelude::*;
use crate::DropBearRecvError;
use crate::channel::oneshot_blocking_recv;

verus! {

/// A handle which resolves to the contents of a paired [`DropBear`] once that
/// container is dropped, or to [`DropBearRecvError::SenderDropped`] once the
/// value is rescued out of it instead.
///
/// Produced only by [`DropBear::new`]. It resolves at most once: every
/// receiving operation consumes the handle, so a second observation of the
/// resolution is ruled out by construction.
///
/// [`DropBear`]: crate::DropBear
/// [`DropBear::new`]: crate::DropBear::new
#[verifier::reject_recursive_types(T)]
pub struct DropBearHandle<T> {
    receiver: tokio::sync::oneshot::Receiver<T>,
}

impl<T> DropBearHandle<T> {
    pub(crate) fn from_receiver(receiver: tokio::sync::oneshot::Receiver<T>) -> DropBearHandle<T> {
        DropBearHandle { receiver }
    }

    /// Interprets the raw outcome of the one-shot receive as the handle's
    /// resolution: a delivered value is handed through unchanged, and a
    /// receive that failed because the sending half was torn down without a
    /// send resolves to the one failure, `SenderDropped`.
    pub fn interpret(
        outcome: Result<T, tokio::sync::oneshot::error::RecvError>,
    ) -> (resolution: Result<T, DropBearRecvError>)
        ensures
            outcome matches Ok(v) ==> resolution == Ok::<T, DropBearRecvError>(v),
            outcome is Err ==> resolution == Err::<T, DropBearRecvError>(
                DropBearRecvError::SenderDropped,
            ),
    {
        match outcome {
            Ok(value) => Ok(value),
            Err(_) => Err(DropBearRecvError::SenderDropped),
        }
    }

    /// The synchronous form of awaiting the handle: parks the calling thread
    /// until the paired container is consumed, then returns the resolution.
    /// Must not be called from inside an asynchronous execution context; an
    /// asynchronous caller awaits the receiving end instead (see
    /// [`Self::into_receiver`]).
    pub fn recv(self) -> Result<T, DropBearRecvError> {
        let DropBearHandle { receiver } = self;
        Self::interpret(oneshot_blocking_recv(receiver))
    }

    /// Releases the receiving end of the one-shot channel, for callers that
    /// await it as a future in an asynchronous context; the raw outcome it
    /// resolves with is turned into the handle's resolution by
    /// [`Self::interpret`].
    pub fn into_receiver(self) -> tokio::sync::oneshot::Receiver<T> {
        let DropBearHandle { receiver } = self;
        receiver
    }
}

} // verus!
