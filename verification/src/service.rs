//! The update service: the device registry, the client context aggregating
//! registry and request channel, the single-owner access token, and the
//! decision functions the dispatch loop runs.
//!
//! The registry is an arena of device records in registration order, looked
//! up by component id; no two registered devices share an id. The context
//! is created once and driven by exactly one dispatch loop, which the token
//! enforces: token creation succeeds at most once per guard.

use vstd::prelude::*;

use crate::channel::{Channel, RequestId};
use crate::component::{
    CfuDevice, CfuError, CfuRequest, InternalResponse, InternalResponseData, Request, RequestData,
};
use crate::device::DriverResult;
use crate::protocol::{
    CfuProtocolError, ComponentId, FwUpdateContentResponse, FwUpdateOfferResponse,
    GetFwVersionResponse,
};

verus! {

/// Failure to register a device.
#[derive(Clone, Copy, Debug, PartialEq, Eq, Structural)]
pub enum RegistryError {
    /// A device with the same component id is already registered.
    AlreadyRegistered,
}

/// The registry of update-capable components plus the central request
/// channel into the dispatch loop.
pub struct ClientContext {
    /// Registered devices, in registration order.
    pub devices: Vec<CfuDevice>,
    /// The central channel callers submit requests through.
    pub channel: Channel,
}

impl ClientContext {
    /// True when a device with this component id is registered.
    pub open spec fn id_registered(&self, id: ComponentId) -> bool {
        exists|i: int|
            0 <= i < self.devices@.len() && (#[trigger] self.devices@[i]).component_id == id
    }

    /// The registry slot holding the device with this id (meaningful only
    /// while `id_registered` holds; unique under `wf`).
    pub open spec fn spec_slot_of(&self, id: ComponentId) -> int {
        choose|i: int|
            0 <= i < self.devices@.len() && (#[trigger] self.devices@[i]).component_id == id
    }

    /// No two registered devices share an id, and every channel's
    /// correlation bookkeeping is well formed.
    pub open spec fn wf(&self) -> bool {
        &&& forall|i: int, j: int|
            0 <= i < j < self.devices@.len() ==> (#[trigger] self.devices@[i]).component_id != (
            #[trigger] self.devices@[j]).component_id
        &&& forall|i: int| 0 <= i < self.devices@.len() ==> (#[trigger] self.devices@[i]).wf()
        &&& self.channel.wf()
    }

    /// Registry slot of the device with this id, if any.
    fn find_device(&self, id: ComponentId) -> (r: Option<usize>)
        ensures
            match r {
                Some(slot) => slot < self.devices@.len() && self.devices@[
                    slot as int
                ].component_id == id,
                None => !self.id_registered(id),
            },
    {
        let mut i: usize = 0;
        while i < self.devices.len()
            invariant
                i <= self.devices@.len(),
                forall|j: int| 0 <= j < i ==> (#[trigger] self.devices@[j]).component_id != id,
            decreases self.devices@.len() - i,
        {
            if self.devices[i].component_id() == id {
                return Some(i);
            }
            i = i + 1;
        }
        None
    }
}

/// Initialize the update service: a fresh context with no devices
/// registered and an empty channel.
pub fn init() -> (r: ClientContext)
    ensures
        r.wf(),
        r.devices@.len() == 0,
        r.channel.is_empty(),
        r.channel.fresh_id() == 0,
{
    ClientContext { devices: Vec::new(), channel: Channel::new() }
}

/// Register a device. Fails with `AlreadyRegistered` — context untouched —
/// when a device with the same id is present; otherwise appends the device,
/// growing the registry by exactly one.
pub fn register_device(ctx: &mut ClientContext, device: CfuDevice) -> (r: Result<
    (),
    RegistryError,
>)
    requires
        old(ctx).wf(),
        device.wf(),
    ensures
        final(ctx).wf(),
        final(ctx).channel == old(ctx).channel,
        old(ctx).id_registered(device.component_id) ==> r == Err::<(), RegistryError>(
            RegistryError::AlreadyRegistered,
        ) && *final(ctx) == *old(ctx),
        !old(ctx).id_registered(device.component_id) ==> r == Ok::<(), RegistryError>(())
            && final(ctx).devices@ == old(ctx).devices@.push(device),
        !old(ctx).id_registered(device.component_id) ==> final(ctx).devices@.len() == old(
            ctx,
        ).devices@.len() + 1,
{
    match ctx.find_device(device.component_id()) {
        Some(_) => Err(RegistryError::AlreadyRegistered),
        None => {
            ctx.devices.push(device);
            Ok(())
        },
    }
}

/// Submit a request to the service's central queue on behalf of `from` and
/// return its correlation id at once. The dispatch loop answers under the
/// same id; the caller collects the answer with [`wait_request_response`].
pub fn send_request(ctx: &mut ClientContext, from: ComponentId, request: RequestData) -> (r:
    RequestId)
    requires
        old(ctx).wf(),
        old(ctx).channel.can_issue(),
    ensures
        final(ctx).wf(),
        final(ctx).devices@ == old(ctx).devices@,
        r == old(ctx).channel.fresh_id(),
        final(ctx).channel.pending_entries() == old(ctx).channel.pending_entries().push(
            (r, Request { id: from, data: request }),
        ),
        final(ctx).channel.in_flight_ids() == old(ctx).channel.in_flight_ids(),
        final(ctx).channel.responses() == old(ctx).channel.responses(),
        final(ctx).channel.fresh_id() == r + 1,
{
    ctx.channel.submit_nowait(Request { id: from, data: request })
}

/// Collect the answer to a centrally submitted request, if the dispatch
/// loop has produced it yet.
pub fn wait_request_response(ctx: &mut ClientContext, id: RequestId) -> (r: Option<
    InternalResponse,
>)
    requires
        old(ctx).wf(),
    ensures
        final(ctx).wf(),
        final(ctx).devices@ == old(ctx).devices@,
        final(ctx).channel.pending_entries() == old(ctx).channel.pending_entries(),
        final(ctx).channel.in_flight_ids() == old(ctx).channel.in_flight_ids(),
        final(ctx).channel.fresh_id() == old(ctx).channel.fresh_id(),
        r == if old(ctx).channel.responses().dom().contains(id) {
            Some(old(ctx).channel.responses()[id])
        } else {
            None::<InternalResponse>
        },
        final(ctx).channel.responses() == old(ctx).channel.responses().remove(id),
{
    ctx.channel.take_response(id)
}

/// Route a request directly to a known component, bypassing the central
/// queue: resolves the target and hands back the addressed command for the
/// caller to execute against that component's backing driver. Fails with
/// `InvalidComponent` if and only if the id is not registered.
pub fn route_request(ctx: &ClientContext, to: ComponentId, request: RequestData) -> (r: Result<
    Request,
    CfuError,
>)
    ensures
        ctx.id_registered(to) ==> r == Ok::<Request, CfuError>(Request { id: to, data: request }),
        !ctx.id_registered(to) ==> r == Err::<Request, CfuError>(CfuError::InvalidComponent),
{
    match ctx.find_device(to) {
        Some(_) => Ok(Request { id: to, data: request }),
        None => Err(CfuError::InvalidComponent),
    }
}

/// Submit a request on a specific component's own channel without waiting,
/// returning the correlation id to collect the answer with
/// [`wait_device_response`]. Fails with `InvalidComponent` if and only if
/// the id is not registered.
pub fn send_device_request(ctx: &mut ClientContext, to: ComponentId, request: RequestData) -> (r:
    Result<RequestId, CfuError>)
    requires
        old(ctx).wf(),
        old(ctx).id_registered(to) ==> old(ctx).devices@[old(ctx).spec_slot_of(
            to,
        )].channel.can_issue(),
    ensures
        final(ctx).wf(),
        final(ctx).channel == old(ctx).channel,
        !old(ctx).id_registered(to) ==> r == Err::<RequestId, CfuError>(
            CfuError::InvalidComponent,
        ) && *final(ctx) == *old(ctx),
        old(ctx).id_registered(to) ==> ({
            let slot = old(ctx).spec_slot_of(to);
            let dev = old(ctx).devices@[slot];
            &&& r matches Ok(rid)
            &&& rid == dev.channel.fresh_id()
            &&& final(ctx).devices@.len() == old(ctx).devices@.len()
            &&& forall|i: int|
                0 <= i < old(ctx).devices@.len() && i != slot ==> final(ctx).devices@[i] == old(
                    ctx,
                ).devices@[i]
            &&& final(ctx).devices@[slot].component_id == dev.component_id
            &&& final(ctx).devices@[slot].state == dev.state
            &&& final(ctx).devices@[slot].channel.pending_entries()
                == dev.channel.pending_entries().push((rid, Request { id: to, data: request }))
            &&& final(ctx).devices@[slot].channel.in_flight_ids() == dev.channel.in_flight_ids()
            &&& final(ctx).devices@[slot].channel.responses() == dev.channel.responses()
            &&& final(ctx).devices@[slot].channel.fresh_id() == rid + 1
        }),
{
    match ctx.find_device(to) {
        None => Err(CfuError::InvalidComponent),
        Some(slot) => {
            proof {
                let chosen = old(ctx).spec_slot_of(to);
                assert(old(ctx).devices@[chosen].component_id == to);
                assert(chosen == slot as int);
            }
            let dev = &mut ctx.devices[slot];
            let rid = dev.channel.submit_nowait(Request { id: to, data: request });
            Ok(rid)
        },
    }
}

/// The device-side consumer: take the oldest pending request on a specific
/// component's own channel. Fails with `InvalidComponent` if and only if
/// the id is not registered; `Ok(None)` means nothing is pending yet.
pub fn receive_device_request(ctx: &mut ClientContext, to: ComponentId) -> (r: Result<
    Option<CfuRequest>,
    CfuError,
>)
    requires
        old(ctx).wf(),
    ensures
        final(ctx).wf(),
        final(ctx).channel == old(ctx).channel,
        !old(ctx).id_registered(to) ==> r == Err::<Option<CfuRequest>, CfuError>(
            CfuError::InvalidComponent,
        ) && *final(ctx) == *old(ctx),
        old(ctx).id_registered(to) ==> ({
            let slot = old(ctx).spec_slot_of(to);
            let dev = old(ctx).devices@[slot];
            &&& final(ctx).devices@.len() == old(ctx).devices@.len()
            &&& forall|i: int|
                0 <= i < old(ctx).devices@.len() && i != slot ==> final(ctx).devices@[i] == old(
                    ctx,
                ).devices@[i]
            &&& final(ctx).devices@[slot].component_id == dev.component_id
            &&& final(ctx).devices@[slot].state == dev.state
            &&& final(ctx).devices@[slot].channel.fresh_id() == dev.channel.fresh_id()
            &&& final(ctx).devices@[slot].channel.responses() == dev.channel.responses()
            &&& match r {
                Err(_) => false,
                Ok(opt) => match opt {
                    None => {
                        &&& dev.channel.pending_entries().len() == 0
                        &&& final(ctx).devices@[slot] == dev
                    },
                    Some(req) => {
                        &&& dev.channel.pending_entries().len() > 0
                        &&& req.request_id == dev.channel.pending_entries()[0].0
                        &&& req.command == dev.channel.pending_entries()[0].1
                        &&& final(ctx).devices@[slot].channel.pending_entries()
                            == dev.channel.pending_entries().subrange(
                            1,
                            dev.channel.pending_entries().len() as int,
                        )
                        &&& final(ctx).devices@[slot].channel.in_flight_ids()
                            == dev.channel.in_flight_ids().push(req.request_id)
                    },
                },
            }
        }),
{
    match ctx.find_device(to) {
        None => Err(CfuError::InvalidComponent),
        Some(slot) => {
            proof {
                let chosen = old(ctx).spec_slot_of(to);
                assert(old(ctx).devices@[chosen].component_id == to);
                assert(chosen == slot as int);
            }
            let dev = &mut ctx.devices[slot];
            let req = dev.channel.receive();
            Ok(req)
        },
    }
}

/// The device-side producer: post the response for an in-flight request on
/// a specific component's own channel. Answering an id that is not in
/// flight there is a programming error in the producer, ruled out here
/// rather than handled. Fails with `InvalidComponent` if and only if the id
/// is not registered.
pub fn send_device_response(
    ctx: &mut ClientContext,
    to: ComponentId,
    id: RequestId,
    response: InternalResponse,
) -> (r: Result<(), CfuError>)
    requires
        old(ctx).wf(),
        old(ctx).id_registered(to) ==> old(ctx).devices@[old(ctx).spec_slot_of(
            to,
        )].channel.in_flight_ids().contains(id),
    ensures
        final(ctx).wf(),
        final(ctx).channel == old(ctx).channel,
        !old(ctx).id_registered(to) ==> r == Err::<(), CfuError>(CfuError::InvalidComponent)
            && *final(ctx) == *old(ctx),
        old(ctx).id_registered(to) ==> ({
            let slot = old(ctx).spec_slot_of(to);
            let dev = old(ctx).devices@[slot];
            &&& r == Ok::<(), CfuError>(())
            &&& final(ctx).devices@.len() == old(ctx).devices@.len()
            &&& forall|i: int|
                0 <= i < old(ctx).devices@.len() && i != slot ==> final(ctx).devices@[i] == old(
                    ctx,
                ).devices@[i]
            &&& final(ctx).devices@[slot].component_id == dev.component_id
            &&& final(ctx).devices@[slot].state == dev.state
            &&& final(ctx).devices@[slot].channel.fresh_id() == dev.channel.fresh_id()
            &&& final(ctx).devices@[slot].channel.pending_entries()
                == dev.channel.pending_entries()
            &&& final(ctx).devices@[slot].channel.responses() == dev.channel.responses().insert(
                id,
                response,
            )
            &&& !final(ctx).devices@[slot].channel.in_flight_ids().contains(id)
        }),
{
    match ctx.find_device(to) {
        None => Err(CfuError::InvalidComponent),
        Some(slot) => {
            proof {
                let chosen = old(ctx).spec_slot_of(to);
                assert(old(ctx).devices@[chosen].component_id == to);
                assert(chosen == slot as int);
            }
            let dev = &mut ctx.devices[slot];
            dev.channel.respond(id, response);
            Ok(())
        },
    }
}

/// Collect a response from a specific component's own channel: the answer
/// to the given correlation id, or — with no id — whichever answer is
/// oldest. Fails with `InvalidComponent` if and only if the id is not
/// registered; `Ok(None)` means the awaited answer has not been produced
/// yet.
pub fn wait_device_response(ctx: &mut ClientContext, to: ComponentId, id: Option<RequestId>) -> (r:
    Result<Option<InternalResponse>, CfuError>)
    requires
        old(ctx).wf(),
    ensures
        final(ctx).wf(),
        final(ctx).channel == old(ctx).channel,
        !old(ctx).id_registered(to) ==> r == Err::<Option<InternalResponse>, CfuError>(
            CfuError::InvalidComponent,
        ) && *final(ctx) == *old(ctx),
        old(ctx).id_registered(to) ==> ({
            let slot = old(ctx).spec_slot_of(to);
            let dev = old(ctx).devices@[slot];
            &&& final(ctx).devices@.len() == old(ctx).devices@.len()
            &&& forall|i: int|
                0 <= i < old(ctx).devices@.len() && i != slot ==> final(ctx).devices@[i] == old(
                    ctx,
                ).devices@[i]
            &&& final(ctx).devices@[slot].component_id == dev.component_id
            &&& final(ctx).devices@[slot].state == dev.state
            &&& final(ctx).devices@[slot].channel.fresh_id() == dev.channel.fresh_id()
            &&& final(ctx).devices@[slot].channel.pending_entries()
                == dev.channel.pending_entries()
            &&& final(ctx).devices@[slot].channel.in_flight_ids() == dev.channel.in_flight_ids()
            &&& match id {
                Some(rid) => {
                    &&& r == Ok::<Option<InternalResponse>, CfuError>(
                        if dev.channel.responses().dom().contains(rid) {
                            Some(dev.channel.responses()[rid])
                        } else {
                            None
                        },
                    )
                    &&& final(ctx).devices@[slot].channel.responses()
                        == dev.channel.responses().remove(rid)
                },
                None => match r {
                    Err(_) => false,
                    Ok(opt) => match opt {
                        None => {
                            &&& dev.channel.responses() =~= Map::empty()
                            &&& final(ctx).devices@[slot] == dev
                        },
                        Some(resp) => exists|k: RequestId|
                            {
                                &&& #[trigger] dev.channel.responses().dom().contains(k)
                                &&& dev.channel.responses()[k] == resp
                                &&& final(ctx).devices@[slot].channel.responses()
                                    == dev.channel.responses().remove(k)
                            },
                    },
                },
            }
        }),
{
    match ctx.find_device(to) {
        None => Err(CfuError::InvalidComponent),
        Some(slot) => {
            proof {
                let chosen = old(ctx).spec_slot_of(to);
                assert(old(ctx).devices@[chosen].component_id == to);
                assert(chosen == slot as int);
            }
            let dev = &mut ctx.devices[slot];
            match id {
                Some(rid) => {
                    let resp = dev.channel.take_response(rid);
                    Ok(resp)
                },
                None => {
                    match dev.channel.take_any_response() {
                        None => Ok(None),
                        Some((_, resp)) => Ok(Some(resp)),
                    }
                },
            }
        },
    }
}

/// Opaque capability proving its holder owns the singleton dispatch role.
pub struct ContextToken {
    _priv: (),
}

impl ContextToken {
    /// Create the single-owner token, guarded by the flag at the one call
    /// site that owns creation: succeeds exactly once — the first call
    /// (guard still clear) returns a token, every later call (guard set)
    /// returns nothing. Either way the guard is set afterwards.
    pub fn create(created: &mut bool) -> (r: Option<ContextToken>)
        ensures
            *final(created),
            !*old(created) ==> r is Some,
            *old(created) ==> r is None,
    {
        if *created {
            None
        } else {
            *created = true;
            Some(ContextToken { _priv: () })
        }
    }

    /// The dispatch loop takes the oldest pending request from the central
    /// queue; its id becomes in flight until answered via
    /// [`Self::send_response`]. Requests come out in submission order.
    pub fn receive(&self, ctx: &mut ClientContext) -> (r: Option<CfuRequest>)
        requires
            old(ctx).wf(),
        ensures
            final(ctx).wf(),
            final(ctx).devices@ == old(ctx).devices@,
            final(ctx).channel.fresh_id() == old(ctx).channel.fresh_id(),
            final(ctx).channel.responses() == old(ctx).channel.responses(),
            match r {
                None => {
                    &&& old(ctx).channel.pending_entries().len() == 0
                    &&& *final(ctx) == *old(ctx)
                },
                Some(req) => {
                    &&& old(ctx).channel.pending_entries().len() > 0
                    &&& req.request_id == old(ctx).channel.pending_entries()[0].0
                    &&& req.command == old(ctx).channel.pending_entries()[0].1
                    &&& final(ctx).channel.pending_entries() == old(
                        ctx,
                    ).channel.pending_entries().subrange(
                        1,
                        old(ctx).channel.pending_entries().len() as int,
                    )
                    &&& final(ctx).channel.in_flight_ids() == old(
                        ctx,
                    ).channel.in_flight_ids().push(req.request_id)
                },
            },
    {
        ctx.channel.receive()
    }

    /// The dispatch loop answers a request it took from the central queue.
    /// Each id is answered at most once: answering an id that is not in
    /// flight is a programming error in the producer, ruled out here rather
    /// than handled.
    pub fn send_response(
        &self,
        ctx: &mut ClientContext,
        id: RequestId,
        response: InternalResponse,
    )
        requires
            old(ctx).wf(),
            old(ctx).channel.in_flight_ids().contains(id),
        ensures
            final(ctx).wf(),
            final(ctx).devices@ == old(ctx).devices@,
            final(ctx).channel.fresh_id() == old(ctx).channel.fresh_id(),
            final(ctx).channel.pending_entries() == old(ctx).channel.pending_entries(),
            final(ctx).channel.responses() == old(ctx).channel.responses().insert(id, response),
            !final(ctx).channel.in_flight_ids().contains(id),
    {
        ctx.channel.respond(id, response)
    }

    /// Registry slot of the device with this id. Fails with
    /// `InvalidComponent` if and only if the id is not registered.
    pub fn get_device(&self, ctx: &ClientContext, id: ComponentId) -> (r: Result<usize, CfuError>)
        ensures
            ctx.id_registered(id) ==> ({
                &&& r matches Ok(slot)
                &&& slot < ctx.devices@.len()
                &&& ctx.devices@[slot as int].component_id == id
            }),
            !ctx.id_registered(id) ==> r == Err::<usize, CfuError>(CfuError::InvalidComponent),
    {
        match ctx.find_device(id) {
            Some(slot) => Ok(slot),
            None => Err(CfuError::InvalidComponent),
        }
    }

    /// Read-only access to the registered devices, in registration order,
    /// for enumeration or diagnostics.
    pub fn devices<'a>(&self, ctx: &'a ClientContext) -> (r: &'a Vec<CfuDevice>)
        ensures
            r@ == ctx.devices@,
    {
        &ctx.devices
    }
}

/// What the dispatch loop must do with one dequeued request.
#[derive(Clone, Debug, PartialEq, Eq)]
pub enum RequestAction {
    /// Answer immediately with this response.
    Respond(InternalResponseData),
    /// Execute the firmware-version request against the device in this
    /// registry slot and validate the driver's answer with
    /// [`check_fw_version_response`].
    QueryFwVersion(usize),
    /// Refuse the request with this error.
    Reject(CfuError),
}

/// Decide how the dispatch loop serves one dequeued request:
///
/// * a firmware-version request goes to the target device's backing driver
///   — or is refused with `InvalidComponent` when the target is not
///   registered;
/// * content, offers, prepare, and finalize commands arriving on the
///   central queue are acknowledged at once with the placeholder response
///   of their kind;
/// * a sub-component version request is acknowledged with an empty report.
pub fn plan_request(ctx: &ClientContext, request: &CfuRequest) -> (r: RequestAction)
    ensures
        request.command.data == RequestData::FwVersionRequest ==> (if ctx.id_registered(
            request.command.id,
        ) {
            &&& r matches RequestAction::QueryFwVersion(slot)
            &&& slot < ctx.devices@.len()
            &&& ctx.devices@[slot as int].component_id == request.command.id
        } else {
            r == RequestAction::Reject(CfuError::InvalidComponent)
        }),
        request.command.data matches RequestData::GiveContent(_) ==> r == RequestAction::Respond(
            InternalResponseData::ContentResponse(
                FwUpdateContentResponse { sequence_number: 0u16, status: 0u8 },
            ),
        ),
        request.command.data matches RequestData::GiveOffer(_) ==> r == RequestAction::Respond(
            InternalResponseData::OfferResponse(FwUpdateOfferResponse { status: 0u8 }),
        ),
        request.command.data == RequestData::PrepareComponentForUpdate ==> r
            == RequestAction::Respond(InternalResponseData::ComponentPrepared),
        request.command.data == RequestData::FinalizeUpdate ==> r == RequestAction::Respond(
            InternalResponseData::ComponentPrepared,
        ),
        request.command.data matches RequestData::PrimaryNeedsSubcomponentFwVersion(_) ==> (
        r matches RequestAction::Respond(InternalResponseData::SubcomponentFwVersionResponse(v))
            && v@ == Seq::<GetFwVersionResponse>::empty()),
{
    match &request.command.data {
        RequestData::FwVersionRequest => {
            match ctx.find_device(request.command.id) {
                Some(slot) => RequestAction::QueryFwVersion(slot),
                None => RequestAction::Reject(CfuError::InvalidComponent),
            }
        },
        RequestData::GiveContent(_) => RequestAction::Respond(
            InternalResponseData::ContentResponse(FwUpdateContentResponse::default()),
        ),
        RequestData::GiveOffer(_) => RequestAction::Respond(
            InternalResponseData::OfferResponse(FwUpdateOfferResponse::default()),
        ),
        RequestData::PrepareComponentForUpdate => RequestAction::Respond(
            InternalResponseData::ComponentPrepared,
        ),
        RequestData::FinalizeUpdate => RequestAction::Respond(
            InternalResponseData::ComponentPrepared,
        ),
        RequestData::PrimaryNeedsSubcomponentFwVersion(_) => RequestAction::Respond(
            InternalResponseData::SubcomponentFwVersionResponse(Vec::new()),
        ),
    }
}

/// Validate what a backing driver answered to a firmware-version request:
/// a version report is relayed unchanged, any other answer shape is a
/// `BadResponse` protocol violation, and a driver fault is propagated
/// unchanged.
pub fn check_fw_version_response(response: DriverResult) -> (r: Result<
    InternalResponseData,
    CfuError,
>)
    ensures
        response matches Err(e) ==> r == Err::<InternalResponseData, CfuError>(
            CfuError::ProtocolError(e),
        ),
        response matches Ok(resp) ==> (if resp is FwVersionResponse {
            r == Ok::<InternalResponseData, CfuError>(resp)
        } else {
            r == Err::<InternalResponseData, CfuError>(
                CfuError::ProtocolError(CfuProtocolError::BadResponse),
            )
        }),
{
    match response {
        Err(e) => Err(CfuError::ProtocolError(e)),
        Ok(resp) => match resp {
            InternalResponseData::FwVersionResponse(_) => Ok(resp),
            _ => Err(CfuError::ProtocolError(CfuProtocolError::BadResponse)),
        },
    }
}

} // verus!
