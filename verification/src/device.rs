//! The typed device state machine.
//!
//! A [`Device<S>`] binds a device record to the state tag `S`, and each tag
//! exposes only the transitions legal in that phase, so an illegal call is a
//! type error. Every transition that consults the backing component takes
//! the driver's answer as an argument: the caller issues the command named
//! by the matching `*_request` method, waits for the component, and hands
//! the result back in. The transition then decides the next state and what
//! notification, if any, to post — and that decision is proved correct for
//! every possible answer.

use vstd::prelude::*;

use core::marker::PhantomData;

use crate::action::{Busy, FinalizingUpdate, Idle, Kind, Ready};
use crate::component::{
    CfuDevice, CfuError, ComponentState, InternalResponseData, InternalState, RequestData,
};
use crate::protocol::{
    CfuProtocolError, ComponentId, FwUpdateContentCommand, FwUpdateOfferCommand,
    FwUpdateOfferResponse,
};

verus! {

/// What the backing component driver answers when a command is executed
/// against it.
pub type DriverResult = Result<InternalResponseData, CfuProtocolError>;

/// The given device record with its bookkeeping replaced.
pub open spec fn with_state(device: CfuDevice, state: InternalState) -> CfuDevice {
    CfuDevice { component_id: device.component_id, state, channel: device.channel }
}

/// A device statically tagged with its update phase. The typed wrapper only
/// exists while the underlying record's phase agrees with the tag
/// ([`Device::wf`]); transitions consume the wrapper and return one whose
/// tag reflects the post-transition phase.
pub struct Device<S: Kind> {
    /// The underlying device record.
    pub device: CfuDevice,
    /// Zero-size tag binding this wrapper to one update phase.
    pub _state: PhantomData<S>,
}

/// A transition that consulted the backing component and failed: the error
/// to surface, and the device unchanged, still in the state it was called
/// in.
pub struct TransitionFailure<S: Kind> {
    /// The device, untouched by the failed transition.
    pub device: Device<S>,
    /// Why the transition failed.
    pub error: CfuError,
}

/// How a prepare transition on an idle device came out.
pub enum PrepareOutcome {
    /// The component reported itself prepared: it can now take offers.
    Prepared(Device<Ready>),
    /// A primary component first needs the listed sub-components prepared.
    /// The device stays busy with the wait recorded, and the caller recurses
    /// the prepare protocol on each listed id before preparing the primary
    /// again.
    NeedsSubcomponents(Device<Busy>, Vec<ComponentId>),
}

impl<S: Kind> Device<S> {
    /// The typed wrapper is well formed while the record's phase agrees
    /// with the tag.
    pub open spec fn wf(&self) -> bool {
        self.device.state.state == S::spec_kind()
    }

    /// Bind a device record to the state tag matching its current phase.
    pub fn new(device: CfuDevice) -> (r: Device<S>)
        requires
            device.state.state == S::spec_kind(),
        ensures
            r.device == device,
            r.wf(),
    {
        Device { device, _state: PhantomData }
    }

    /// The identity of the underlying component.
    pub fn component_id(&self) -> (r: ComponentId)
        ensures
            r == self.device.component_id,
    {
        self.device.component_id()
    }

    /// Give the underlying record back, e.g. to return it to the registry.
    pub fn into_inner(self) -> (r: CfuDevice)
        ensures
            r == self.device,
    {
        self.device
    }

    /// Something went wrong (bad image, bad signature, ...) and the device
    /// must abandon its update: from any state, back to idle.
    pub fn bail(self) -> (r: Result<Device<Idle>, CfuError>)
        ensures
            r matches Ok(d) && d.device == with_state(
                self.device,
                InternalState { state: ComponentState::Idle, waiting_on_subs: false },
            ),
            r matches Ok(d) && d.wf(),
    {
        let mut device = self.device;
        device.set_state(InternalState::new(ComponentState::Idle));
        Ok(Device::new(device))
    }
}

impl Device<Idle> {
    /// The command a prepare transition issues to the backing driver.
    pub fn prepare_request(&self) -> (r: RequestData)
        ensures
            r == RequestData::PrepareComponentForUpdate,
    {
        RequestData::PrepareComponentForUpdate
    }

    /// Prepare the component for an update, deciding on the driver's answer
    /// to [`Self::prepare_request`]:
    ///
    /// * `ComponentPrepared` — the device becomes ready;
    /// * `PrimaryNeedsSubcomponentsPrepared(ids)`, first occurrence — the
    ///   device stays busy with the wait recorded and `ids` is surfaced so
    ///   the caller can prepare each listed sub-component;
    /// * `PrimaryNeedsSubcomponentsPrepared(ids)` while already waiting —
    ///   every sub-component has since prepared, so the device becomes
    ///   ready;
    /// * any other answer is a protocol violation: `BadResponse`, device
    ///   unchanged; a driver fault is propagated unchanged, device
    ///   unchanged.
    pub fn prepare_component(self, response: DriverResult) -> (r: Result<
        PrepareOutcome,
        TransitionFailure<Idle>,
    >)
        requires
            self.wf(),
        ensures
            response matches Err(e) ==> r matches Err(f) && f.device == self && f.error
                == CfuError::ProtocolError(e),
            response == Ok::<InternalResponseData, CfuProtocolError>(InternalResponseData::ComponentPrepared) ==> (r matches Ok(
                PrepareOutcome::Prepared(d),
            ) && d.device == with_state(
                self.device,
                InternalState { state: ComponentState::Ready, waiting_on_subs: false },
            )),
            response matches Ok(InternalResponseData::PrimaryNeedsSubcomponentsPrepared(ids))
                ==> (if !self.device.state.waiting_on_subs {
                &&& r matches Ok(PrepareOutcome::NeedsSubcomponents(d, out))
                &&& d.device == with_state(
                    self.device,
                    InternalState { state: ComponentState::Busy, waiting_on_subs: true },
                )
                &&& out == ids
            } else {
                &&& r matches Ok(PrepareOutcome::Prepared(d))
                &&& d.device == with_state(
                    self.device,
                    InternalState { state: ComponentState::Ready, waiting_on_subs: false },
                )
            }),
            (response matches Ok(resp) && !(resp is ComponentPrepared) && !(resp
                is PrimaryNeedsSubcomponentsPrepared)) ==> (r matches Err(f) && f.device == self
                && f.error == CfuError::ProtocolError(CfuProtocolError::BadResponse)),
    {
        match response {
            Err(e) => Err(TransitionFailure { device: self, error: CfuError::ProtocolError(e) }),
            Ok(resp) => match resp {
                InternalResponseData::ComponentPrepared => {
                    let mut device = self.device;
                    device.set_state(InternalState::new(ComponentState::Ready));
                    Ok(PrepareOutcome::Prepared(Device::new(device)))
                },
                InternalResponseData::PrimaryNeedsSubcomponentsPrepared(ids) => {
                    let mut device = self.device;
                    if device.state.waiting_on_subs {
                        device.set_state(InternalState::new(ComponentState::Ready));
                        Ok(PrepareOutcome::Prepared(Device::new(device)))
                    } else {
                        device.set_state(
                            InternalState::new_with_subcomponent_info(ComponentState::Busy, true),
                        );
                        Ok(PrepareOutcome::NeedsSubcomponents(Device::new(device), ids))
                    }
                },
                _ => Err(
                    TransitionFailure {
                        device: self,
                        error: CfuError::ProtocolError(CfuProtocolError::BadResponse),
                    },
                ),
            },
        }
    }
}

impl Device<Ready> {
    /// Accept an offer: always legal once ready; the device becomes busy to
    /// receive content.
    pub fn accept_offer(self) -> (r: Device<Busy>)
        requires
            self.wf(),
        ensures
            r.device == with_state(
                self.device,
                InternalState { state: ComponentState::Busy, waiting_on_subs: false },
            ),
            r.wf(),
    {
        let mut device = self.device;
        device.set_state(InternalState::new(ComponentState::Busy));
        Device::new(device)
    }

    /// Reject an offer: informational only, no state change; the device
    /// stays ready for another offer.
    pub fn reject_offer(&self) {
    }

    /// The command an offer evaluation issues to the backing driver.
    pub fn offer_request(&self, offer: FwUpdateOfferCommand) -> (r: RequestData)
        ensures
            r == RequestData::GiveOffer(offer),
    {
        RequestData::GiveOffer(offer)
    }

    /// Evaluate an offer, deciding on the driver's answer to
    /// [`Self::offer_request`]: the component's verdict is relayed,
    /// `ComponentBusy` maps to the busy error, any other answer shape is a
    /// `BadResponse` protocol violation, and a driver fault is propagated
    /// unchanged. The device stays ready in every case.
    pub fn evaluate_offer(self, response: DriverResult) -> (r: (
        Device<Ready>,
        Result<FwUpdateOfferResponse, CfuError>,
    ))
        requires
            self.wf(),
        ensures
            r.0 == self,
            response matches Err(e) ==> r.1 == Err::<FwUpdateOfferResponse, CfuError>(
                CfuError::ProtocolError(e),
            ),
            response matches Ok(InternalResponseData::OfferResponse(o)) ==> r.1 == Ok::<
                FwUpdateOfferResponse,
                CfuError,
            >(o),
            response == Ok::<InternalResponseData, CfuProtocolError>(InternalResponseData::ComponentBusy) ==> r.1 == Err::<
                FwUpdateOfferResponse,
                CfuError,
            >(CfuError::ComponentBusy),
            (response matches Ok(resp) && !(resp is OfferResponse) && !(resp is ComponentBusy))
                ==> r.1 == Err::<FwUpdateOfferResponse, CfuError>(
                CfuError::ProtocolError(CfuProtocolError::BadResponse),
            ),
    {
        match response {
            Err(e) => (self, Err(CfuError::ProtocolError(e))),
            Ok(resp) => match resp {
                InternalResponseData::OfferResponse(o) => (self, Ok(o)),
                InternalResponseData::ComponentBusy => (self, Err(CfuError::ComponentBusy)),
                _ => (self, Err(CfuError::ProtocolError(CfuProtocolError::BadResponse))),
            },
        }
    }
}

/// How a content-chunk transition came out: the notification to post for
/// the component, if any, and the error that ends this chunk's handling.
#[derive(Clone, Debug, PartialEq, Eq)]
pub struct ContentOutcome {
    /// The component's acknowledgement, to be posted to the requester.
    pub notice: Option<InternalResponseData>,
    /// The error surfaced to the caller.
    pub error: CfuError,
}

impl Device<Busy> {
    /// Second prepare cycle of a primary component, legal only once its
    /// sub-component list has been surfaced and the wait recorded. Both
    /// `PrimaryNeedsSubcomponentsPrepared` (all sub-components have since
    /// prepared) and `ComponentPrepared` make the device ready and report
    /// `ComponentPrepared`; any other answer is a `BadResponse` protocol
    /// violation and a driver fault is propagated unchanged, the device
    /// unchanged either way.
    pub fn prepare_component(self, response: DriverResult) -> (r: Result<
        (Device<Ready>, InternalResponseData),
        TransitionFailure<Busy>,
    >)
        requires
            self.wf(),
            self.device.state.waiting_on_subs,
        ensures
            response matches Err(e) ==> r matches Err(f) && f.device == self && f.error
                == CfuError::ProtocolError(e),
            (response matches Ok(resp) && (resp is ComponentPrepared || resp
                is PrimaryNeedsSubcomponentsPrepared)) ==> (r matches Ok(p) && p.0.device
                == with_state(
                self.device,
                InternalState { state: ComponentState::Ready, waiting_on_subs: false },
            ) && p.1 == InternalResponseData::ComponentPrepared),
            (response matches Ok(resp) && !(resp is ComponentPrepared) && !(resp
                is PrimaryNeedsSubcomponentsPrepared)) ==> (r matches Err(f) && f.device == self
                && f.error == CfuError::ProtocolError(CfuProtocolError::BadResponse)),
    {
        match response {
            Err(e) => Err(TransitionFailure { device: self, error: CfuError::ProtocolError(e) }),
            Ok(resp) => match resp {
                InternalResponseData::ComponentPrepared
                | InternalResponseData::PrimaryNeedsSubcomponentsPrepared(_) => {
                    let mut device = self.device;
                    device.set_state(InternalState::new(ComponentState::Ready));
                    Ok((Device::new(device), InternalResponseData::ComponentPrepared))
                },
                _ => Err(
                    TransitionFailure {
                        device: self,
                        error: CfuError::ProtocolError(CfuProtocolError::BadResponse),
                    },
                ),
            },
        }
    }

    /// The command a content-chunk transition issues to the backing driver.
    pub fn content_request(&self, chunk: FwUpdateContentCommand) -> (r: RequestData)
        ensures
            r == RequestData::GiveContent(chunk),
    {
        RequestData::GiveContent(chunk)
    }

    /// Handle one content chunk, deciding on the driver's answer to
    /// [`Self::content_request`]: the component's acknowledgement is
    /// surfaced as the notification to post, and the chunk's handling then
    /// ends in `BadImage`; a driver fault is propagated unchanged with
    /// nothing to post. The device stays busy either way.
    ///
    /// Callers treat this as "one chunk, then re-evaluate", not as a
    /// multi-chunk loop: the terminal `BadImage` after a successfully
    /// relayed acknowledgement is deliberate at this layer.
    pub fn receive_next_content_chunk(self, response: DriverResult) -> (r: (
        Device<Busy>,
        ContentOutcome,
    ))
        requires
            self.wf(),
        ensures
            r.0 == self,
            response matches Ok(resp) ==> r.1 == (ContentOutcome {
                notice: Some(resp),
                error: CfuError::BadImage,
            }),
            response matches Err(e) ==> r.1 == (ContentOutcome {
                notice: None::<InternalResponseData>,
                error: CfuError::ProtocolError(e),
            }),
    {
        match response {
            Ok(resp) => (
                self,
                ContentOutcome { notice: Some(resp), error: CfuError::BadImage },
            ),
            Err(e) => (
                self,
                ContentOutcome { notice: None, error: CfuError::ProtocolError(e) },
            ),
        }
    }

    /// Content transfer is complete: move on to finalizing the update.
    pub fn finalize_update(self) -> (r: Result<Device<FinalizingUpdate>, CfuError>)
        requires
            self.wf(),
        ensures
            r matches Ok(d) && d.device == with_state(
                self.device,
                InternalState { state: ComponentState::FinalizingUpdate, waiting_on_subs: false },
            ),
            r matches Ok(d) && d.wf(),
    {
        let mut device = self.device;
        device.set_state(InternalState::new(ComponentState::FinalizingUpdate));
        Ok(Device::new(device))
    }
}

impl Device<FinalizingUpdate> {
    /// Done finalizing: the device is idle once more, and a
    /// `ComponentPrepared` notification reports the completed update.
    pub fn finish_component_update(self) -> (r: Result<
        (Device<Idle>, InternalResponseData),
        CfuError,
    >)
        requires
            self.wf(),
        ensures
            r matches Ok(p) && p.0.device == with_state(
                self.device,
                InternalState { state: ComponentState::Idle, waiting_on_subs: false },
            ),
            r matches Ok(p) && p.0.wf(),
            r matches Ok(p) && p.1 == InternalResponseData::ComponentPrepared,
    {
        let mut device = self.device;
        device.set_state(InternalState::new(ComponentState::Idle));
        Ok((Device::new(device), InternalResponseData::ComponentPrepared))
    }
}

/// A device in whichever state, for callers that must branch on runtime
/// phase.
pub enum AnyState {
    /// An idle device.
    Idle(Device<Idle>),
    /// A ready device.
    Ready(Device<Ready>),
    /// A busy device.
    Busy(Device<Busy>),
    /// A device finalizing an update.
    FinalizingUpdate(Device<FinalizingUpdate>),
}

impl AnyState {
    /// The phase of the contained state.
    pub open spec fn spec_kind(&self) -> ComponentState {
        match self {
            AnyState::Idle(_) => ComponentState::Idle,
            AnyState::Ready(_) => ComponentState::Ready,
            AnyState::Busy(_) => ComponentState::Busy,
            AnyState::FinalizingUpdate(_) => ComponentState::FinalizingUpdate,
        }
    }

    /// The contained device record.
    pub open spec fn spec_device(&self) -> CfuDevice {
        match self {
            AnyState::Idle(d) => d.device,
            AnyState::Ready(d) => d.device,
            AnyState::Busy(d) => d.device,
            AnyState::FinalizingUpdate(d) => d.device,
        }
    }

    /// Each contained wrapper agrees with its tag.
    pub open spec fn wf(&self) -> bool {
        match self {
            AnyState::Idle(d) => d.wf(),
            AnyState::Ready(d) => d.wf(),
            AnyState::Busy(d) => d.wf(),
            AnyState::FinalizingUpdate(d) => d.wf(),
        }
    }

    /// Return the phase of the contained state.
    pub fn kind(&self) -> (r: ComponentState)
        ensures
            r == self.spec_kind(),
    {
        match self {
            AnyState::Busy(_) => ComponentState::Busy,
            AnyState::Idle(_) => ComponentState::Idle,
            AnyState::FinalizingUpdate(_) => ComponentState::FinalizingUpdate,
            AnyState::Ready(_) => ComponentState::Ready,
        }
    }

    /// Wrap a device record in the typed wrapper matching its runtime
    /// phase. Whatever the record holds, the result is one of the four
    /// legal phases — there is no fifth.
    pub fn from_device(device: CfuDevice) -> (r: AnyState)
        ensures
            r.wf(),
            r.spec_device() == device,
            r.spec_kind() == device.state.state,
    {
        let state = device.state.state;
        match state {
            ComponentState::Idle => AnyState::Idle(Device::new(device)),
            ComponentState::Ready => AnyState::Ready(Device::new(device)),
            ComponentState::Busy => AnyState::Busy(Device::new(device)),
            ComponentState::FinalizingUpdate => AnyState::FinalizingUpdate(Device::new(device)),
        }
    }
}

} // verus!
