//! The value-holding half of the pair: a container whose destruction delivers
//! the wrapped value to its paired handle.

use vstd::prelude::*;
use crate::channel::{oneshot_pair, oneshot_send};
use crate::handle::DropBearHandle;

verus! {

/// A container which fires a notification to a paired [`DropBearHandle`] when
/// it is dropped, delivering the wrapped value through a one-shot channel at
/// that moment.
///
/// A container is consumed at most once, by whichever of extraction
/// ([`Self::into_inner`]) or disposal (its `Drop`) occurs first; the fields
/// are private, so every container reachable through the public interface is
/// still live.
#[verifier::reject_recursive_types(T)]
pub struct DropBear<T> {
    inner: Option<(T, tokio::sync::oneshot::Sender<T>)>,
}

impl<T> DropBear<T> {
    /// A container is live until its single consuming operation.
    pub closed spec fn is_live(self) -> bool {
        self.inner is Some
    }

    /// The wrapped value, as it currently stands.
    pub closed spec fn value(self) -> T {
        self.inner.unwrap().0
    }

    /// Constructs a fresh one-shot channel, stores `item` alongside its
    /// sending end in a new container, and returns the container together
    /// with the handle wrapping the receiving end. Infallible.
    pub fn new(item: T) -> (pair: (DropBear<T>, DropBearHandle<T>))
        ensures
            pair.0.is_live(),
            pair.0.value() == item,
    {
        let (sender, receiver) = oneshot_pair::<T>();
        (
            DropBear { inner: Some((item, sender)) },
            DropBearHandle::from_receiver(receiver),
        )
    }

    /// Rescues the wrapped value out of the container, detaching it from its
    /// delivery channel, and hands it back to the caller directly. The
    /// sending end is destroyed as part of this consumption, which resolves
    /// the paired handle with [`SenderDropped`] rather than a delivery.
    ///
    /// [`SenderDropped`]: crate::DropBearRecvError::SenderDropped
    pub fn into_inner(self) -> (value: T)
        requires
            self.is_live(),
        ensures
            value == self.value(),
    {
        let mut this = self;
        let stored = this.inner.take();
        let (value, _sender) = stored.unwrap();
        value
    }

    /// Transparent read access to the wrapped value.
    pub fn get(&self) -> (value: &T)
        requires
            self.is_live(),
        ensures
            *value == self.value(),
    {
        let stored = self.inner.as_ref().unwrap();
        &stored.0
    }

    /// Transparent mutable access to the wrapped value; the container stays
    /// live and afterwards wraps whatever the caller wrote through the
    /// returned reference.
    pub fn get_mut(&mut self) -> (value: &mut T)
        requires
            old(self).is_live(),
        ensures
            *value == old(self).value(),
            final(self).is_live(),
            final(self).value() == *final(value),
    {
        let stored = self.inner.as_mut().unwrap();
        &mut stored.0
    }

    /// Transparent write access: overwrites the wrapped value, so that a
    /// later disposal delivers `value` instead.
    pub fn set(&mut self, value: T)
        requires
            old(self).is_live(),
        ensures
            final(self).is_live(),
            final(self).value() == value,
    {
        let slot = self.get_mut();
        *slot = value;
    }
}

impl<T> Drop for DropBear<T> {
    /// Disposal: sends the wrapped value through the channel to the paired
    /// handle. If the handle was already abandoned the failed send simply
    /// discards the value; disposal never panics and never blocks. After
    /// extraction there is nothing left to deliver and disposal does nothing.
    fn drop(&mut self)
        opens_invariants none
        no_unwind
    {
        let mut taken: Option<(T, tokio::sync::oneshot::Sender<T>)> = None;
        core::mem::swap(&mut self.inner, &mut taken);
        match taken {
            None => {}
            Some((value, sender)) => {
                let _ = oneshot_send(sender, value);
            }
        }
    }
}

} // verus!
