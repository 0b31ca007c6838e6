//! The lifecycle of one container/handle pair, as a mathematical state
//! machine, together with the laws that hold of its steps.
//!
//! The executable pair realizes these steps with the one-shot channel as the
//! single point of synchronization: `DropBear::new` performs [`PairState::create`],
//! a write through the live container performs [`PairState::write`], dropping
//! the container performs [`PairState::dispose`], `DropBear::into_inner`
//! performs [`PairState::extract`], and dropping a still-pending handle
//! performs [`PairState::abandon`].

use vstd::prelude::*;

verus! {

/// The container's side of the pair: live until its single consuming
/// operation, which is either explicit extraction or disposal; terminal
/// either way.
pub enum ContainerPhase {
    Live,
    ConsumedByExtract,
    ConsumedByDisposal,
}

/// The handle's side of the pair: pending until the container's consumption
/// resolves it, with abandonment (dropping the handle while pending) as the
/// only other exit; each of the three exits is terminal.
pub enum HandlePhase<T> {
    Pending,
    ResolvedOk(T),
    ResolvedErr,
    Abandoned,
}

/// The joint state of one container/handle pair: the container's phase, the
/// value the container currently wraps, and the handle's phase.
pub struct PairState<T> {
    pub container: ContainerPhase,
    pub held: T,
    pub handle: HandlePhase<T>,
}

impl<T> PairState<T> {
    /// The pair as the factory sets it up: a live container wrapping the
    /// given value, and a pending handle.
    pub open spec fn create(value: T) -> PairState<T> {
        PairState {
            container: ContainerPhase::Live,
            held: value,
            handle: HandlePhase::Pending,
        }
    }

    /// A transparent write through the live container: only the wrapped
    /// value changes.
    pub open spec fn write(self, value: T) -> PairState<T>
        recommends
            self.container is Live,
    {
        PairState { container: self.container, held: value, handle: self.handle }
    }

    /// Disposal: the container is consumed and the value it held at that
    /// moment is delivered, resolving a still-pending handle with it; a
    /// handle in any other phase is left untouched (in particular, delivery
    /// to an abandoned handle is a silent discard).
    pub open spec fn dispose(self) -> PairState<T>
        recommends
            self.container is Live,
    {
        PairState {
            container: ContainerPhase::ConsumedByDisposal,
            held: self.held,
            handle: if self.handle is Pending {
                HandlePhase::ResolvedOk(self.held)
            } else {
                self.handle
            },
        }
    }

    /// Extraction: the container is consumed and the value handed back to
    /// the caller directly, resolving a still-pending handle with the
    /// failure; a handle in any other phase is left untouched.
    pub open spec fn extract(self) -> (PairState<T>, T)
        recommends
            self.container is Live,
    {
        (
            PairState {
                container: ContainerPhase::ConsumedByExtract,
                held: self.held,
                handle: if self.handle is Pending {
                    HandlePhase::ResolvedErr
                } else {
                    self.handle
                },
            },
            self.held,
        )
    }

    /// Abandonment: dropping the handle while it is still pending; the
    /// container's side is untouched.
    pub open spec fn abandon(self) -> PairState<T> {
        PairState {
            container: self.container,
            held: self.held,
            handle: if self.handle is Pending {
                HandlePhase::Abandoned
            } else {
                self.handle
            },
        }
    }

    /// A handle is resolved once it carries either a delivered value or the
    /// failure.
    pub open spec fn resolved(self) -> bool {
        self.handle is ResolvedOk || self.handle is ResolvedErr
    }
}

/// Law: disposal delivers the value. Disposing a live pair whose handle is
/// still pending consumes the container and resolves the handle with exactly
/// the value the container held at that moment.
pub proof fn lemma_disposal_delivers<T>(s: PairState<T>)
    requires
        s.container is Live,
        s.handle is Pending,
    ensures
        s.dispose().container is ConsumedByDisposal,
        s.dispose().handle == HandlePhase::ResolvedOk(s.held),
{
}

/// Law: extraction bypasses delivery and notifies abandonment. Extracting
/// from a live pair whose handle is still pending hands back exactly the
/// held value and resolves the handle with the failure, never with a value.
pub proof fn lemma_extract_rescues<T>(s: PairState<T>)
    requires
        s.container is Live,
        s.handle is Pending,
    ensures
        s.extract().1 == s.held,
        s.extract().0.container is ConsumedByExtract,
        s.extract().0.handle is ResolvedErr,
{
}

/// Law: an abandoned handle's discard is silent. Once the handle is
/// abandoned, consuming the container — by disposal or by extraction — has
/// no observable effect on any handle phase.
pub proof fn lemma_abandoned_discard_silent<T>(s: PairState<T>)
    requires
        s.handle is Abandoned,
    ensures
        s.dispose().handle == s.handle,
        s.extract().0.handle == s.handle,
{
}

/// Law: exactly-once resolution. A resolved handle is terminal: no further
/// step of the pair changes its resolution, so the handle never resolves a
/// second time.
pub proof fn lemma_resolution_exactly_once<T>(s: PairState<T>, v: T)
    requires
        s.resolved(),
    ensures
        s.dispose().handle == s.handle,
        s.extract().0.handle == s.handle,
        s.abandon().handle == s.handle,
        s.write(v).handle == s.handle,
{
}

/// Law: delivery reflects the value as it stood at disposal. Writing through
/// the live container and then disposing delivers exactly the written value,
/// with no stale or intervening copy.
pub proof fn lemma_delivery_reflects_writes<T>(s: PairState<T>, v: T)
    requires
        s.container is Live,
        s.handle is Pending,
    ensures
        s.write(v).dispose().handle == HandlePhase::ResolvedOk(v),
{
}

} // verus!
