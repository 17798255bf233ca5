//! State tags for the typed device state machine.
//!
//! Each tag is a zero-size type standing for one update phase; the closed
//! set is sealed so the state machine's legal transitions cannot be extended
//! from outside.

use vstd::prelude::*;

use crate::component::ComponentState;

verus! {

trait Sealed {

}

/// A state tag: a type standing for one update phase.
#[allow(private_bounds)]
pub trait Kind: Sealed {
    /// The update phase this tag stands for.
    spec fn spec_kind() -> ComponentState;

    /// Return the update phase this tag stands for.
    fn kind() -> (r: ComponentState)
        ensures
            r == Self::spec_kind(),
    ;
}

/// State tag for an idle component.
pub struct Idle;

impl Sealed for Idle {

}

impl Kind for Idle {
    open spec fn spec_kind() -> ComponentState {
        ComponentState::Idle
    }

    fn kind() -> (r: ComponentState) {
        ComponentState::Idle
    }
}

/// State tag for a component that is prepared and can take offers.
pub struct Ready;

impl Sealed for Ready {

}

impl Kind for Ready {
    open spec fn spec_kind() -> ComponentState {
        ComponentState::Ready
    }

    fn kind() -> (r: ComponentState) {
        ComponentState::Ready
    }
}

/// State tag for a component with an update flow underway.
pub struct Busy;

impl Sealed for Busy {

}

impl Kind for Busy {
    open spec fn spec_kind() -> ComponentState {
        ComponentState::Busy
    }

    fn kind() -> (r: ComponentState) {
        ComponentState::Busy
    }
}

/// State tag for a component that is committing a transferred image.
pub struct FinalizingUpdate;

impl Sealed for FinalizingUpdate {

}

impl Kind for FinalizingUpdate {
    open spec fn spec_kind() -> ComponentState {
        ComponentState::FinalizingUpdate
    }

    fn kind() -> (r: ComponentState) {
        ComponentState::FinalizingUpdate
    }
}

} // verus!
