//! A value container that notifies a paired awaitable handle exactly when the
//! container is destroyed, delivering the wrapped value at that moment.

mod channel;
pub mod container;
pub mod handle;
pub mod lifecycle;

pub use crate::container::DropBear;
pub use crate::handle::DropBearHandle;

use vstd::prelude::*;

verus! {

/// The single failure a handle can observe: the container's sending half was
/// torn down without delivering a value, which in correct usage happens only
/// when the value was rescued out of the container early.
#[derive(Debug, Copy, Clone, Eq, PartialEq, Structural)]
pub enum DropBearRecvError {
    SenderDropped,
}

} // verus!
