//! Plain-value models of the wire-level update protocol messages.
//!
//! The orchestration core treats offers, content chunks, and version reports
//! as opaque payloads: it routes them and checks their shape, but never their
//! byte layout. These types hold exactly what the core's callers exchange.

use vstd::prelude::*;

verus! {

/// Identifier of an independently updatable component.
pub type ComponentId = u8;

/// Fault reported by a component's codec or transport while executing a
/// request, or detected by this layer when a response does not match the
/// request that produced it.
#[derive(Clone, Copy, Debug, PartialEq, Eq, Structural)]
pub enum CfuProtocolError {
    /// The response shape does not match the request that triggered it.
    BadResponse,
    /// The component could not decode or execute the command it was handed.
    BadCommand,
}

/// Firmware version report for one component.
#[derive(Clone, Copy, Debug, PartialEq, Eq, Structural)]
pub struct GetFwVersionResponse {
    /// The component the report is about.
    pub component_id: ComponentId,
    /// The component's current firmware version.
    pub fw_version: u32,
}

/// An offer: a proposal describing an available firmware image for a
/// component, which the component may accept, reject, or report busy.
#[derive(Clone, Copy, Debug, PartialEq, Eq, Structural)]
pub struct FwUpdateOfferCommand {
    /// The component the offered image is for.
    pub component_id: ComponentId,
    /// The version of the offered image.
    pub fw_version: u32,
}

/// A component's verdict on an offer.
#[derive(Clone, Copy, Debug, PartialEq, Eq, Structural)]
pub struct FwUpdateOfferResponse {
    /// Raw status code as the component reported it.
    pub status: u8,
}

impl Default for FwUpdateOfferResponse {
    /// The all-zero response used when answering an offer on behalf of a
    /// component that has nothing to report.
    fn default() -> (r: Self)
        ensures
            r == (FwUpdateOfferResponse { status: 0u8 }),
    {
        FwUpdateOfferResponse { status: 0 }
    }
}

/// One piece of the firmware image, transferred after an offer is accepted.
#[derive(Clone, Debug, PartialEq, Eq)]
pub struct FwUpdateContentCommand {
    /// Position of this chunk in the transfer.
    pub sequence_number: u16,
    /// The chunk's bytes.
    pub data: Vec<u8>,
}

/// A component's acknowledgement of one content chunk.
#[derive(Clone, Copy, Debug, PartialEq, Eq, Structural)]
pub struct FwUpdateContentResponse {
    /// The chunk the acknowledgement is about.
    pub sequence_number: u16,
    /// Raw status code as the component reported it.
    pub status: u8,
}

impl Default for FwUpdateContentResponse {
    /// The all-zero response used when acknowledging content on behalf of a
    /// component that has nothing to report.
    fn default() -> (r: Self)
        ensures
            r == (FwUpdateContentResponse { sequence_number: 0u16, status: 0u8 }),
    {
        FwUpdateContentResponse { sequence_number: 0, status: 0 }
    }
}

} // verus!
