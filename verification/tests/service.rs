//! Tests of the registry, the client context, the token, and the dispatch
//! decisions.

use cfu_service::component::{
    CfuDevice, CfuError, CfuRequest, InternalResponseData, Request, RequestData,
};
use cfu_service::protocol::{
    CfuProtocolError, FwUpdateContentCommand, FwUpdateContentResponse, FwUpdateOfferCommand,
    FwUpdateOfferResponse, GetFwVersionResponse,
};
use cfu_service::service::{
    check_fw_version_response, init, plan_request, receive_device_request, register_device,
    route_request, send_device_request, send_device_response, send_request, wait_device_response,
    wait_request_response, ContextToken, RegistryError, RequestAction,
};

#[test]
fn init_starts_with_no_devices() {
    let ctx = init();
    assert_eq!(ctx.devices.len(), 0);
}

#[test]
fn register_grows_by_one_and_duplicate_fails() {
    let mut ctx = init();
    assert_eq!(register_device(&mut ctx, CfuDevice::new(1)), Ok(()));
    assert_eq!(ctx.devices.len(), 1);

    assert_eq!(
        register_device(&mut ctx, CfuDevice::new(1)),
        Err(RegistryError::AlreadyRegistered)
    );
    assert_eq!(ctx.devices.len(), 1);

    assert_eq!(register_device(&mut ctx, CfuDevice::new(2)), Ok(()));
    assert_eq!(ctx.devices.len(), 2);
}

#[test]
fn unregistered_id_is_invalid_component_everywhere() {
    let mut ctx = init();
    register_device(&mut ctx, CfuDevice::new(1)).unwrap();
    let token = ContextToken::create(&mut false).unwrap();

    assert_eq!(
        token.get_device(&ctx, 9),
        Err(CfuError::InvalidComponent)
    );
    assert_eq!(
        route_request(&ctx, 9, RequestData::FwVersionRequest),
        Err(CfuError::InvalidComponent)
    );
    assert_eq!(
        send_device_request(&mut ctx, 9, RequestData::FwVersionRequest),
        Err(CfuError::InvalidComponent)
    );
    assert_eq!(
        receive_device_request(&mut ctx, 9),
        Err(CfuError::InvalidComponent)
    );
    assert_eq!(
        send_device_response(&mut ctx, 9, 0, Ok(InternalResponseData::ComponentPrepared)),
        Err(CfuError::InvalidComponent)
    );
    assert_eq!(
        wait_device_response(&mut ctx, 9, None),
        Err(CfuError::InvalidComponent)
    );
}

#[test]
fn token_creation_succeeds_exactly_once() {
    let mut created = false;
    let first = ContextToken::create(&mut created);
    assert!(first.is_some());
    let second = ContextToken::create(&mut created);
    assert!(second.is_none());
    assert!(created);
}

#[test]
fn get_device_finds_the_registered_slot() {
    let mut ctx = init();
    register_device(&mut ctx, CfuDevice::new(5)).unwrap();
    register_device(&mut ctx, CfuDevice::new(6)).unwrap();
    let token = ContextToken::create(&mut false).unwrap();

    assert_eq!(token.get_device(&ctx, 5), Ok(0));
    assert_eq!(token.get_device(&ctx, 6), Ok(1));
    assert_eq!(token.devices(&ctx)[1].component_id(), 6);
}

#[test]
fn route_request_addresses_a_registered_component() {
    let mut ctx = init();
    register_device(&mut ctx, CfuDevice::new(3)).unwrap();
    assert_eq!(
        route_request(&ctx, 3, RequestData::PrepareComponentForUpdate),
        Ok(Request { id: 3, data: RequestData::PrepareComponentForUpdate })
    );
}

#[test]
fn central_responses_resolve_by_id_out_of_order() {
    let mut ctx = init();
    let token = ContextToken::create(&mut false).unwrap();

    let id_a = send_request(&mut ctx, 1, RequestData::FwVersionRequest);
    let id_b = send_request(&mut ctx, 2, RequestData::PrepareComponentForUpdate);
    assert_ne!(id_a, id_b);

    // The single consumer sees the requests in submission order.
    let req_a = token.receive(&mut ctx).unwrap();
    assert_eq!(req_a.request_id, id_a);
    assert_eq!(
        req_a.command,
        Request { id: 1, data: RequestData::FwVersionRequest }
    );
    let req_b = token.receive(&mut ctx).unwrap();
    assert_eq!(req_b.request_id, id_b);

    // Answer B first, then A: each id still resolves to its own answer.
    token.send_response(&mut ctx, id_b, Ok(InternalResponseData::ComponentPrepared));
    token.send_response(&mut ctx, id_a, Err(CfuError::BadImage));

    assert_eq!(
        wait_request_response(&mut ctx, id_a),
        Some(Err(CfuError::BadImage))
    );
    assert_eq!(
        wait_request_response(&mut ctx, id_b),
        Some(Ok(InternalResponseData::ComponentPrepared))
    );

    // Each response is delivered once.
    assert_eq!(wait_request_response(&mut ctx, id_a), None);
    assert_eq!(wait_request_response(&mut ctx, id_b), None);
}

#[test]
fn receive_on_empty_queue_yields_nothing() {
    let mut ctx = init();
    let token = ContextToken::create(&mut false).unwrap();
    assert!(token.receive(&mut ctx).is_none());
}

#[test]
fn device_channel_round_trip() {
    let mut ctx = init();
    register_device(&mut ctx, CfuDevice::new(3)).unwrap();

    let chunk = FwUpdateContentCommand { sequence_number: 0, data: vec![1, 2, 3] };
    let rid = send_device_request(&mut ctx, 3, RequestData::GiveContent(chunk.clone())).unwrap();

    // Nothing answered yet.
    assert_eq!(wait_device_response(&mut ctx, 3, Some(rid)), Ok(None));

    let req = receive_device_request(&mut ctx, 3).unwrap().unwrap();
    assert_eq!(req.request_id, rid);
    assert_eq!(req.command, Request { id: 3, data: RequestData::GiveContent(chunk) });

    let ack = InternalResponseData::ContentResponse(FwUpdateContentResponse {
        sequence_number: 0,
        status: 0,
    });
    send_device_response(&mut ctx, 3, rid, Ok(ack.clone())).unwrap();

    assert_eq!(wait_device_response(&mut ctx, 3, Some(rid)), Ok(Some(Ok(ack))));
    assert_eq!(wait_device_response(&mut ctx, 3, Some(rid)), Ok(None));
}

#[test]
fn device_responses_resolve_by_id_out_of_order() {
    let mut ctx = init();
    register_device(&mut ctx, CfuDevice::new(7)).unwrap();

    let id_a = send_device_request(&mut ctx, 7, RequestData::FwVersionRequest).unwrap();
    let id_b = send_device_request(&mut ctx, 7, RequestData::FinalizeUpdate).unwrap();
    assert_ne!(id_a, id_b);

    let req_a = receive_device_request(&mut ctx, 7).unwrap().unwrap();
    let req_b = receive_device_request(&mut ctx, 7).unwrap().unwrap();
    assert_eq!(req_a.request_id, id_a);
    assert_eq!(req_b.request_id, id_b);

    send_device_response(&mut ctx, 7, id_b, Ok(InternalResponseData::ComponentPrepared)).unwrap();
    send_device_response(&mut ctx, 7, id_a, Err(CfuError::ComponentBusy)).unwrap();

    assert_eq!(
        wait_device_response(&mut ctx, 7, Some(id_a)),
        Ok(Some(Err(CfuError::ComponentBusy)))
    );
    assert_eq!(
        wait_device_response(&mut ctx, 7, Some(id_b)),
        Ok(Some(Ok(InternalResponseData::ComponentPrepared)))
    );
}

#[test]
fn wait_for_any_device_response_drains_both() {
    let mut ctx = init();
    register_device(&mut ctx, CfuDevice::new(2)).unwrap();

    let id_a = send_device_request(&mut ctx, 2, RequestData::FwVersionRequest).unwrap();
    let id_b = send_device_request(&mut ctx, 2, RequestData::FinalizeUpdate).unwrap();
    receive_device_request(&mut ctx, 2).unwrap().unwrap();
    receive_device_request(&mut ctx, 2).unwrap().unwrap();
    send_device_response(&mut ctx, 2, id_a, Err(CfuError::BadImage)).unwrap();
    send_device_response(&mut ctx, 2, id_b, Ok(InternalResponseData::ComponentPrepared)).unwrap();

    let mut seen = Vec::new();
    seen.push(wait_device_response(&mut ctx, 2, None).unwrap().unwrap());
    seen.push(wait_device_response(&mut ctx, 2, None).unwrap().unwrap());
    assert_eq!(wait_device_response(&mut ctx, 2, None), Ok(None));
    assert!(seen.contains(&Err(CfuError::BadImage)));
    assert!(seen.contains(&Ok(InternalResponseData::ComponentPrepared)));
}

#[test]
fn plan_request_serves_each_command_kind() {
    let mut ctx = init();
    register_device(&mut ctx, CfuDevice::new(1)).unwrap();

    let fw_known = CfuRequest {
        request_id: 0,
        command: Request { id: 1, data: RequestData::FwVersionRequest },
    };
    assert_eq!(plan_request(&ctx, &fw_known), RequestAction::QueryFwVersion(0));

    let fw_unknown = CfuRequest {
        request_id: 1,
        command: Request { id: 9, data: RequestData::FwVersionRequest },
    };
    assert_eq!(
        plan_request(&ctx, &fw_unknown),
        RequestAction::Reject(CfuError::InvalidComponent)
    );

    let content = CfuRequest {
        request_id: 2,
        command: Request {
            id: 1,
            data: RequestData::GiveContent(FwUpdateContentCommand {
                sequence_number: 4,
                data: vec![9],
            }),
        },
    };
    assert_eq!(
        plan_request(&ctx, &content),
        RequestAction::Respond(InternalResponseData::ContentResponse(
            FwUpdateContentResponse { sequence_number: 0, status: 0 }
        ))
    );

    let offer = CfuRequest {
        request_id: 3,
        command: Request {
            id: 1,
            data: RequestData::GiveOffer(FwUpdateOfferCommand { component_id: 1, fw_version: 2 }),
        },
    };
    assert_eq!(
        plan_request(&ctx, &offer),
        RequestAction::Respond(InternalResponseData::OfferResponse(FwUpdateOfferResponse {
            status: 0,
        }))
    );

    let prepare = CfuRequest {
        request_id: 4,
        command: Request { id: 1, data: RequestData::PrepareComponentForUpdate },
    };
    assert_eq!(
        plan_request(&ctx, &prepare),
        RequestAction::Respond(InternalResponseData::ComponentPrepared)
    );

    let finalize = CfuRequest {
        request_id: 5,
        command: Request { id: 1, data: RequestData::FinalizeUpdate },
    };
    assert_eq!(
        plan_request(&ctx, &finalize),
        RequestAction::Respond(InternalResponseData::ComponentPrepared)
    );

    let sub_versions = CfuRequest {
        request_id: 6,
        command: Request {
            id: 1,
            data: RequestData::PrimaryNeedsSubcomponentFwVersion(vec![2, 3]),
        },
    };
    assert_eq!(
        plan_request(&ctx, &sub_versions),
        RequestAction::Respond(InternalResponseData::SubcomponentFwVersionResponse(Vec::new()))
    );
}

#[test]
fn check_fw_version_response_validates_the_shape() {
    let report = GetFwVersionResponse { component_id: 1, fw_version: 42 };
    assert_eq!(
        check_fw_version_response(Ok(InternalResponseData::FwVersionResponse(report))),
        Ok(InternalResponseData::FwVersionResponse(report))
    );
    assert_eq!(
        check_fw_version_response(Ok(InternalResponseData::ComponentBusy)),
        Err(CfuError::ProtocolError(CfuProtocolError::BadResponse))
    );
    assert_eq!(
        check_fw_version_response(Err(CfuProtocolError::BadCommand)),
        Err(CfuError::ProtocolError(CfuProtocolError::BadCommand))
    );
}
