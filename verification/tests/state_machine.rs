//! Tests of the typed device state machine.

use cfu_service::action::{Busy, FinalizingUpdate, Idle, Kind, Ready};
use cfu_service::component::{
    CfuDevice, CfuError, ComponentState, InternalResponseData, InternalState, RequestData,
};
use cfu_service::device::{AnyState, ContentOutcome, Device, PrepareOutcome};
use cfu_service::protocol::{
    CfuProtocolError, FwUpdateContentCommand, FwUpdateContentResponse, FwUpdateOfferCommand,
    FwUpdateOfferResponse, GetFwVersionResponse,
};

fn idle_device(id: u8) -> Device<Idle> {
    Device::new(CfuDevice::new(id))
}

fn ready_device(id: u8) -> Device<Ready> {
    let mut dev = CfuDevice::new(id);
    dev.set_state(InternalState::new(ComponentState::Ready));
    Device::new(dev)
}

fn busy_device(id: u8) -> Device<Busy> {
    let mut dev = CfuDevice::new(id);
    dev.set_state(InternalState::new(ComponentState::Busy));
    Device::new(dev)
}

fn finalizing_device(id: u8) -> Device<FinalizingUpdate> {
    let mut dev = CfuDevice::new(id);
    dev.set_state(InternalState::new(ComponentState::FinalizingUpdate));
    Device::new(dev)
}

#[test]
fn fresh_device_starts_idle() {
    let dev = CfuDevice::new(1);
    assert_eq!(dev.component_id(), 1);
    assert_eq!(
        dev.state(),
        InternalState { state: ComponentState::Idle, waiting_on_subs: false }
    );
    let any = AnyState::from_device(dev);
    assert_eq!(any.kind(), ComponentState::Idle);
}

#[test]
fn state_tags_name_their_phase() {
    assert_eq!(<Idle as Kind>::kind(), ComponentState::Idle);
    assert_eq!(<Ready as Kind>::kind(), ComponentState::Ready);
    assert_eq!(<Busy as Kind>::kind(), ComponentState::Busy);
    assert_eq!(<FinalizingUpdate as Kind>::kind(), ComponentState::FinalizingUpdate);
}

#[test]
fn any_state_reports_runtime_phase() {
    let mut dev = CfuDevice::new(4);
    dev.set_state(InternalState::new(ComponentState::Busy));
    assert_eq!(AnyState::from_device(dev).kind(), ComponentState::Busy);

    let mut dev = CfuDevice::new(5);
    dev.set_state(InternalState::new(ComponentState::Ready));
    assert_eq!(AnyState::from_device(dev).kind(), ComponentState::Ready);

    let mut dev = CfuDevice::new(6);
    dev.set_state(InternalState::new(ComponentState::FinalizingUpdate));
    assert_eq!(AnyState::from_device(dev).kind(), ComponentState::FinalizingUpdate);
}

#[test]
fn prepare_component_prepared_yields_ready() {
    let d = idle_device(1);
    let outcome = d
        .prepare_component(Ok(InternalResponseData::ComponentPrepared))
        .ok()
        .unwrap();
    match outcome {
        PrepareOutcome::Prepared(ready) => {
            let inner = ready.into_inner();
            assert_eq!(
                inner.state(),
                InternalState { state: ComponentState::Ready, waiting_on_subs: false }
            );
        }
        PrepareOutcome::NeedsSubcomponents(_, _) => {
            panic!("a prepared component must not surface a sub-component list")
        }
    }
}

#[test]
fn prepare_component_subcomponent_cycle() {
    let d = idle_device(1);
    let outcome = d
        .prepare_component(Ok(InternalResponseData::PrimaryNeedsSubcomponentsPrepared(vec![
            2, 3,
        ])))
        .ok()
        .unwrap();
    let busy = match outcome {
        PrepareOutcome::NeedsSubcomponents(busy, ids) => {
            assert_eq!(ids, vec![2, 3]);
            assert_eq!(
                busy.device.state(),
                InternalState { state: ComponentState::Busy, waiting_on_subs: true }
            );
            busy
        }
        PrepareOutcome::Prepared(_) => panic!("the first prepare cycle must surface the ids"),
    };

    // Second prepare cycle: every sub-component has since prepared.
    let (ready, notice) = busy
        .prepare_component(Ok(InternalResponseData::PrimaryNeedsSubcomponentsPrepared(vec![
            2, 3,
        ])))
        .ok()
        .unwrap();
    assert_eq!(notice, InternalResponseData::ComponentPrepared);
    assert_eq!(
        ready.device.state(),
        InternalState { state: ComponentState::Ready, waiting_on_subs: false }
    );
}

#[test]
fn prepare_component_bad_response_leaves_device_idle() {
    let d = idle_device(1);
    let failure = d
        .prepare_component(Ok(InternalResponseData::ComponentBusy))
        .err()
        .unwrap();
    assert_eq!(
        failure.error,
        CfuError::ProtocolError(CfuProtocolError::BadResponse)
    );
    assert_eq!(
        failure.device.device.state(),
        InternalState { state: ComponentState::Idle, waiting_on_subs: false }
    );
}

#[test]
fn prepare_component_propagates_driver_fault() {
    let d = idle_device(1);
    let failure = d
        .prepare_component(Err(CfuProtocolError::BadCommand))
        .err()
        .unwrap();
    assert_eq!(failure.error, CfuError::ProtocolError(CfuProtocolError::BadCommand));
}

#[test]
fn evaluate_offer_component_busy_stays_ready() {
    let d = ready_device(1);
    let (still_ready, verdict) = d.evaluate_offer(Ok(InternalResponseData::ComponentBusy));
    assert_eq!(verdict, Err(CfuError::ComponentBusy));
    assert_eq!(
        still_ready.device.state(),
        InternalState { state: ComponentState::Ready, waiting_on_subs: false }
    );
}

#[test]
fn evaluate_offer_relays_verdict() {
    let d = ready_device(1);
    let (_, verdict) = d.evaluate_offer(Ok(InternalResponseData::OfferResponse(
        FwUpdateOfferResponse { status: 7 },
    )));
    assert_eq!(verdict, Ok(FwUpdateOfferResponse { status: 7 }));
}

#[test]
fn evaluate_offer_bad_shape_is_protocol_error() {
    let d = ready_device(1);
    let (_, verdict) = d.evaluate_offer(Ok(InternalResponseData::ComponentPrepared));
    assert_eq!(
        verdict,
        Err(CfuError::ProtocolError(CfuProtocolError::BadResponse))
    );
}

#[test]
fn evaluate_offer_propagates_driver_fault() {
    let d = ready_device(1);
    let (_, verdict) = d.evaluate_offer(Err(CfuProtocolError::BadCommand));
    assert_eq!(
        verdict,
        Err(CfuError::ProtocolError(CfuProtocolError::BadCommand))
    );
}

#[test]
fn bail_returns_idle_from_ready_busy_and_finalizing() {
    let idle = ready_device(1).bail().unwrap();
    assert_eq!(
        idle.device.state(),
        InternalState { state: ComponentState::Idle, waiting_on_subs: false }
    );

    let idle = busy_device(2).bail().unwrap();
    assert_eq!(
        idle.device.state(),
        InternalState { state: ComponentState::Idle, waiting_on_subs: false }
    );

    let idle = finalizing_device(3).bail().unwrap();
    assert_eq!(
        idle.device.state(),
        InternalState { state: ComponentState::Idle, waiting_on_subs: false }
    );
}

#[test]
fn accept_offer_moves_to_busy() {
    let busy = ready_device(1).accept_offer();
    assert_eq!(
        busy.device.state(),
        InternalState { state: ComponentState::Busy, waiting_on_subs: false }
    );
}

#[test]
fn reject_offer_keeps_device_ready() {
    let d = ready_device(1);
    d.reject_offer();
    assert_eq!(
        d.device.state(),
        InternalState { state: ComponentState::Ready, waiting_on_subs: false }
    );
}

#[test]
fn content_chunk_relays_acknowledgement_then_bad_image() {
    let d = busy_device(1);
    let ack = FwUpdateContentResponse { sequence_number: 9, status: 0 };
    let (still_busy, outcome) =
        d.receive_next_content_chunk(Ok(InternalResponseData::ContentResponse(ack)));
    assert_eq!(
        outcome,
        ContentOutcome {
            notice: Some(InternalResponseData::ContentResponse(ack)),
            error: CfuError::BadImage,
        }
    );
    assert_eq!(still_busy.device.state().state, ComponentState::Busy);
}

#[test]
fn content_chunk_propagates_driver_fault_with_no_notice() {
    let d = busy_device(1);
    let (_, outcome) = d.receive_next_content_chunk(Err(CfuProtocolError::BadResponse));
    assert_eq!(
        outcome,
        ContentOutcome {
            notice: None,
            error: CfuError::ProtocolError(CfuProtocolError::BadResponse),
        }
    );
}

#[test]
fn finalize_then_finish_returns_to_idle() {
    let finalizing = busy_device(1).finalize_update().unwrap();
    assert_eq!(
        finalizing.device.state(),
        InternalState { state: ComponentState::FinalizingUpdate, waiting_on_subs: false }
    );
    let (idle, notice) = finalizing.finish_component_update().unwrap();
    assert_eq!(notice, InternalResponseData::ComponentPrepared);
    assert_eq!(
        idle.device.state(),
        InternalState { state: ComponentState::Idle, waiting_on_subs: false }
    );
}

#[test]
fn request_builders_name_the_commands() {
    let idle = idle_device(1);
    assert_eq!(idle.prepare_request(), RequestData::PrepareComponentForUpdate);

    let ready = ready_device(2);
    let offer = FwUpdateOfferCommand { component_id: 2, fw_version: 3 };
    assert_eq!(ready.offer_request(offer), RequestData::GiveOffer(offer));

    let busy = busy_device(3);
    let chunk = FwUpdateContentCommand { sequence_number: 1, data: vec![0xAA, 0xBB] };
    assert_eq!(
        busy.content_request(chunk.clone()),
        RequestData::GiveContent(chunk)
    );
}

#[test]
fn version_report_carries_plain_values() {
    let report = GetFwVersionResponse { component_id: 4, fw_version: 0x0102_0304 };
    let resp = InternalResponseData::FwVersionResponse(report);
    assert_eq!(
        resp,
        InternalResponseData::FwVersionResponse(GetFwVersionResponse {
            component_id: 4,
            fw_version: 0x0102_0304,
        })
    );
}
