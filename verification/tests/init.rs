use nymlib::init::{
    active_gateway_outcome, advance_setup, gateway_details_outcome, key_store_outcome,
    reuse_gateway_connection, setup_gateway, setup_new_gateway, use_loaded_gateway_details,
    ClientCoreError, GatewaySetup, InitialisationResult, SetupEvent, SetupPhase, SetupRequest,
    SetupStep,
};

type Step = SetupStep<&'static str, u32, char, String>;

#[test]
fn must_load_named_gateway_asks_for_its_details_then_keys() {
    let setup: GatewaySetup<(), (), char, &'static str, u32> =
        GatewaySetup::MustLoad { gateway_id: Some("gw-1".to_string()) };
    let step: Step = setup_gateway(setup);
    let phase = match step {
        SetupStep::Request { phase, request: SetupRequest::LoadGatewayDetails { gateway_id } } => {
            assert_eq!(gateway_id, "gw-1");
            phase
        }
        _ => panic!("expected a request for the gateway's details"),
    };
    let step: Step = advance_setup(phase, SetupEvent::GatewayDetails(Ok("registration")));
    let phase = match step {
        SetupStep::Request { phase, request: SetupRequest::LoadClientKeys } => phase,
        _ => panic!("expected a request for the client keys"),
    };
    let step: Step = advance_setup(phase, SetupEvent::ClientKeys(Ok(42)));
    match step {
        SetupStep::Finished(Ok(result)) => {
            assert_eq!(result.gateway_registration, "registration");
            assert_eq!(result.client_keys, 42);
            assert!(result.authenticated_ephemeral_client.is_none());
        }
        _ => panic!("expected a finished setup"),
    }
}

#[test]
fn must_load_without_name_uses_active_gateway() {
    let step: Step = use_loaded_gateway_details(None);
    let phase = match step {
        SetupStep::Request { phase, request: SetupRequest::LoadActiveGateway } => phase,
        _ => panic!("expected a request for the active gateway"),
    };
    let step: Step = advance_setup(phase, SetupEvent::ActiveGateway(Ok(None)));
    assert!(matches!(step, SetupStep::Finished(Err(ClientCoreError::NoActiveGatewaySet))));
}

#[test]
fn active_gateway_store_failure() {
    let step: Step = advance_setup(SetupPhase::AwaitingActiveGateway, SetupEvent::ActiveGateway(Err("disk".to_string())));
    match step {
        SetupStep::Finished(Err(ClientCoreError::GatewayDetailsStoreError { source })) => assert_eq!(source, "disk"),
        _ => panic!("expected a store error"),
    }
}

#[test]
fn named_gateway_unavailable() {
    let step: Step = advance_setup(
        SetupPhase::AwaitingGatewayDetails { gateway_id: "gw-2".to_string() },
        SetupEvent::GatewayDetails(Err("missing".to_string())),
    );
    match step {
        SetupStep::Finished(Err(ClientCoreError::UnavailableGatewayDetails { gateway_id, source })) => {
            assert_eq!(gateway_id, "gw-2");
            assert_eq!(source, "missing");
        }
        _ => panic!("expected the gateway to be unavailable"),
    }
}

#[test]
fn key_store_failure_ends_setup() {
    let step: Step = advance_setup(
        SetupPhase::AwaitingKeysForLoaded { registration: "r" },
        SetupEvent::ClientKeys(Err("locked".to_string())),
    );
    assert!(matches!(step, SetupStep::Finished(Err(ClientCoreError::KeyStoreError { .. }))));
    let step: Step = advance_setup(SetupPhase::AwaitingKeysForNew, SetupEvent::ClientKeys(Err("locked".to_string())));
    assert!(matches!(step, SetupStep::Finished(Err(ClientCoreError::KeyStoreError { .. }))));
}

#[test]
fn new_gateway_starts_with_client_keys() {
    let step: Step = setup_new_gateway();
    assert!(matches!(
        step,
        SetupStep::Request { phase: SetupPhase::AwaitingKeysForNew, request: SetupRequest::LoadClientKeys }
    ));
    let setup: GatewaySetup<u8, Vec<u8>, char, &'static str, u32> =
        GatewaySetup::New { specification: 1, available_gateways: vec![], overwrite_data: false };
    let step: Step = setup_gateway(setup);
    assert!(matches!(step, SetupStep::Request { phase: SetupPhase::AwaitingKeysForNew, .. }));
}

#[test]
fn reuse_connection_finishes_at_once() {
    let setup: GatewaySetup<(), (), char, &'static str, u32> = GatewaySetup::ReuseConnection {
        authenticated_ephemeral_client: 'c',
        gateway_details: "details",
        managed_keys: 5,
    };
    let step: Step = setup_gateway(setup);
    match step {
        SetupStep::Finished(Ok(result)) => {
            assert_eq!(result.gateway_registration, "details");
            assert_eq!(result.client_keys, 5);
            assert_eq!(result.authenticated_ephemeral_client, Some('c'));
        }
        _ => panic!("expected a finished setup"),
    }
    let direct: InitialisationResult<&str, u32, char> = reuse_gateway_connection('d', "x", 1);
    assert_eq!(direct.authenticated_ephemeral_client, Some('d'));
}

#[test]
fn outcome_helpers() {
    assert_eq!(active_gateway_outcome::<u8, ()>(Ok(Some(3))).unwrap(), 3);
    assert!(matches!(active_gateway_outcome::<u8, ()>(Ok(None)), Err(ClientCoreError::NoActiveGatewaySet)));
    assert!(matches!(
        gateway_details_outcome::<u8, u8>("g", Err(1)),
        Err(ClientCoreError::UnavailableGatewayDetails { ref gateway_id, source: 1 }) if gateway_id == "g"
    ));
    assert!(matches!(key_store_outcome::<(), u8>(Err(2)), Err(ClientCoreError::KeyStoreError { source: 2 })));
    assert!(key_store_outcome::<(), u8>(Ok(())).is_ok());
}
