//! Events that the rendering engine emits toward the host thread.

use vstd::prelude::*;

verus! {

/// A notification emitted by the rendering engine and delivered to a
/// host-thread callback: either the context changed state, or offline
/// rendering ran to completion.
#[derive(Clone, Copy, PartialEq, Eq, Structural, Debug)]
pub enum Event {
    StateChange,
    Complete,
}

} // verus!
