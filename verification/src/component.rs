//! The component data model: update-phase states, requests, responses,
//! errors, and the per-component device record.

use vstd::prelude::*;

use crate::channel::Channel;
use crate::protocol::{
    CfuProtocolError, ComponentId, FwUpdateContentCommand, FwUpdateContentResponse,
    FwUpdateOfferCommand, FwUpdateOfferResponse, GetFwVersionResponse,
};

verus! {

/// The update phase a component is in. Drives which operations are legal.
#[derive(Clone, Copy, Debug, PartialEq, Eq, Structural)]
pub enum ComponentState {
    /// At rest; also the reentry state after an update completes or aborts.
    Idle,
    /// Prepared for an update and able to take offers.
    Ready,
    /// An update flow is underway (preparing sub-components or receiving
    /// content).
    Busy,
    /// Content transfer is done and the component is committing the image.
    FinalizingUpdate,
}

/// The update-phase space is closed: every reachable phase is one of the
/// four legal ones — a freshly registered device starts in `Idle`
/// ([`CfuDevice::new`]), every transition of the typed state machine lands
/// on one of these tags, and there is no fifth phase for any sequence of
/// legal transitions to reach.
pub proof fn lemma_component_state_closed(s: ComponentState)
    ensures
        s is Idle || s is Ready || s is Busy || s is FinalizingUpdate,
{
}

/// A component's mutable bookkeeping: its phase plus whether a primary
/// component has already been asked once to prepare its sub-components.
/// The flag disambiguates the first and the second prepare call for
/// components that fan out to sub-components.
#[derive(Clone, Copy, Debug, PartialEq, Eq, Structural)]
pub struct InternalState {
    /// The component's current update phase.
    pub state: ComponentState,
    /// True once the component has surfaced its sub-component list and is
    /// waiting for those sub-components to finish their own prepare cycle.
    pub waiting_on_subs: bool,
}

impl InternalState {
    /// A fresh bookkeeping record in the given phase, not waiting on
    /// sub-components.
    pub fn new(state: ComponentState) -> (r: Self)
        ensures
            r == (InternalState { state, waiting_on_subs: false }),
    {
        InternalState { state, waiting_on_subs: false }
    }

    /// A bookkeeping record with the waiting-on-sub-components flag chosen
    /// by the caller.
    pub fn new_with_subcomponent_info(state: ComponentState, waiting_on_subs: bool) -> (r: Self)
        ensures
            r == (InternalState { state, waiting_on_subs }),
    {
        InternalState { state, waiting_on_subs }
    }
}

/// Everything that can go wrong while orchestrating an update.
#[derive(Clone, Copy, Debug, PartialEq, Eq, Structural)]
pub enum CfuError {
    /// Content or validation failure; the flow must bail back to idle.
    BadImage,
    /// The requested component id is not present in the registry.
    InvalidComponent,
    /// The component cannot take an offer right now.
    ComponentBusy,
    /// The component's codec or transport faulted, or a response did not
    /// match the request that produced it.
    ProtocolError(CfuProtocolError),
    /// Reserved for callers that race a response wait against a deadline;
    /// never raised by this core itself.
    Timeout,
}

/// A command addressed to a component.
#[derive(Clone, Debug, PartialEq, Eq)]
pub enum RequestData {
    /// Ask the component for its firmware version.
    FwVersionRequest,
    /// Ask a primary component for the versions of the listed sub-components.
    PrimaryNeedsSubcomponentFwVersion(Vec<ComponentId>),
    /// Hand the component one content chunk.
    GiveContent(FwUpdateContentCommand),
    /// Hand the component an offer to evaluate.
    GiveOffer(FwUpdateOfferCommand),
    /// Ask the component to prepare itself for an update.
    PrepareComponentForUpdate,
    /// Ask the component to commit the transferred image.
    FinalizeUpdate,
}

/// A command tagged with the component it concerns.
#[derive(Clone, Debug, PartialEq, Eq)]
pub struct Request {
    /// The originating or target component.
    pub id: ComponentId,
    /// The command itself.
    pub data: RequestData,
}

/// What a component answers when a request is executed against it.
#[derive(Clone, Debug, PartialEq, Eq)]
pub enum InternalResponseData {
    /// The component's firmware version report.
    FwVersionResponse(GetFwVersionResponse),
    /// Version reports for a primary component's sub-components.
    SubcomponentFwVersionResponse(Vec<GetFwVersionResponse>),
    /// Acknowledgement of one content chunk.
    ContentResponse(FwUpdateContentResponse),
    /// The component's verdict on an offer.
    OfferResponse(FwUpdateOfferResponse),
    /// The component is prepared (or has finished) and is ready to proceed.
    ComponentPrepared,
    /// A primary component needs the listed sub-components prepared before
    /// it can itself become ready.
    PrimaryNeedsSubcomponentsPrepared(Vec<ComponentId>),
    /// The component cannot serve the request right now.
    ComponentBusy,
}

/// The outcome of a request: a response, or the error that ended the flow.
pub type InternalResponse = Result<InternalResponseData, CfuError>;

/// A pending request handed to the dispatch loop, tagged with the
/// correlation id under which its response must be posted.
#[derive(Clone, Debug, PartialEq, Eq)]
pub struct CfuRequest {
    /// Correlation id of the request; its response is posted under this id.
    pub request_id: u64,
    /// The addressed command to execute.
    pub command: Request,
}

/// The per-component device record: identity, mutable update-phase
/// bookkeeping, and the component's own request/response channel through
/// which peers address it directly.
pub struct CfuDevice {
    /// The component's identity; never changes after registration.
    pub component_id: ComponentId,
    /// The component's current update-phase bookkeeping.
    pub state: InternalState,
    /// The component's own request/response channel.
    pub channel: Channel,
}

impl CfuDevice {
    /// A device record is well formed when its channel's correlation
    /// bookkeeping is.
    pub open spec fn wf(&self) -> bool {
        self.channel.wf()
    }

    /// A freshly created device: idle, not waiting on sub-components, with
    /// an empty channel.
    pub fn new(component_id: ComponentId) -> (r: Self)
        ensures
            r.component_id == component_id,
            r.state == (InternalState { state: ComponentState::Idle, waiting_on_subs: false }),
            r.channel.is_empty(),
            r.wf(),
    {
        CfuDevice { component_id, state: InternalState::new(ComponentState::Idle), channel: Channel::new() }
    }

    /// The component's identity.
    pub fn component_id(&self) -> (r: ComponentId)
        ensures
            r == self.component_id,
    {
        self.component_id
    }

    /// The component's current bookkeeping.
    pub fn state(&self) -> (r: InternalState)
        ensures
            r == self.state,
    {
        self.state
    }

    /// Replace the component's bookkeeping.
    pub fn set_state(&mut self, state: InternalState)
        ensures
            final(self).state == state,
            final(self).component_id == old(self).component_id,
            final(self).channel == old(self).channel,
    {
        self.state = state;
    }
}

} // verus!
