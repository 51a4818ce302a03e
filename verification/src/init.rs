//! The decisions of client initialisation: which stored data a gateway setup asks
//! for, in what order, and what it makes of each answer. Talking to the stores is
//! left to the caller, which hands every answer back to `advance_setup`.

use vstd::pervasive::unreached;
use vstd::prelude::*;

verus! {

/// Failure of a client initialisation step; `E` is the error of the store that
/// was asked.
#[derive(Debug)]
pub enum ClientCoreError<E> {
    /// The gateway details store failed.
    GatewayDetailsStoreError { source: E },
    /// No gateway is marked as active.
    NoActiveGatewaySet,
    /// The details of the named gateway could not be loaded.
    UnavailableGatewayDetails { gateway_id: String, source: E },
    /// The key store failed.
    KeyStoreError { source: E },
}

/// How a client gets its gateway: by loading stored details (of the given gateway,
/// or of the active one), by setting up a new gateway, or by reusing a connection
/// that was already authenticated.
pub enum GatewaySetup<S, N, C, R, K> {
    MustLoad { gateway_id: Option<String> },
    New { specification: S, available_gateways: N, overwrite_data: bool },
    ReuseConnection { authenticated_ephemeral_client: C, gateway_details: R, managed_keys: K },
}

/// What initialisation gives the client: its gateway registration, its keys and,
/// where one is at hand, an authenticated connection to the gateway.
pub struct InitialisationResult<R, K, C> {
    pub gateway_registration: R,
    pub client_keys: K,
    pub authenticated_ephemeral_client: Option<C>,
}

impl<R, K, C> InitialisationResult<R, K, C> {
    /// The result of loading everything from storage: no connection is open yet.
    pub fn new_loaded(gateway_registration: R, client_keys: K) -> (res: Self)
        ensures
            res.gateway_registration == gateway_registration,
            res.client_keys == client_keys,
            res.authenticated_ephemeral_client is None,
    {
        InitialisationResult { gateway_registration, client_keys, authenticated_ephemeral_client: None }
    }
}

/// A request to a store that the setup is waiting on.
#[derive(Debug)]
pub enum SetupRequest {
    /// Load the stored details of the named gateway.
    LoadGatewayDetails { gateway_id: String },
    /// Load the details of the active gateway, if one is set.
    LoadActiveGateway,
    /// Load the client's long-term keys.
    LoadClientKeys,
}

/// Where a setup stands while it waits for a store.
pub enum SetupPhase<R> {
    /// Waiting for the details of a named gateway.
    AwaitingGatewayDetails { gateway_id: String },
    /// Waiting for the details of the active gateway.
    AwaitingActiveGateway,
    /// Waiting for the client keys, with the gateway registration loaded.
    AwaitingKeysForLoaded { registration: R },
    /// Waiting for the client keys that a new gateway setup starts with.
    AwaitingKeysForNew,
}

/// A store's answer to a request.
pub enum SetupEvent<R, K, E> {
    GatewayDetails(Result<R, E>),
    ActiveGateway(Result<Option<R>, E>),
    ClientKeys(Result<K, E>),
}

/// What the setup does next: ask a store (and wait in the given phase), or finish.
pub enum SetupStep<R, K, C, E> {
    Request { phase: SetupPhase<R>, request: SetupRequest },
    Finished(Result<InitialisationResult<R, K, C>, ClientCoreError<E>>),
}

/// The answer that fits what a phase waits for.
pub open spec fn event_fits<R, K, E>(phase: SetupPhase<R>, event: SetupEvent<R, K, E>) -> bool {
    match phase {
        SetupPhase::AwaitingGatewayDetails { .. } => event is GatewayDetails,
        SetupPhase::AwaitingActiveGateway => event is ActiveGateway,
        SetupPhase::AwaitingKeysForLoaded { .. } => event is ClientKeys,
        SetupPhase::AwaitingKeysForNew => event is ClientKeys,
    }
}

/// A setup of a new gateway that got its client keys reaches the step that
/// checks existing gateway details, which is not implemented.
pub open spec fn reaches_unimplemented<R, K, E>(phase: SetupPhase<R>, event: SetupEvent<R, K, E>) -> bool {
    &&& phase is AwaitingKeysForNew
    &&& event matches SetupEvent::ClientKeys(Ok(_))
}

/// The step that asks for the client keys once a registration is loaded.
pub open spec fn keys_request<R, K, C, E>(registration: R) -> SetupStep<R, K, C, E> {
    SetupStep::Request {
        phase: SetupPhase::AwaitingKeysForLoaded { registration },
        request: SetupRequest::LoadClientKeys,
    }
}

/// The next step of a setup waiting in `phase` that receives `event`.
pub open spec fn spec_advance<R, K, C, E>(phase: SetupPhase<R>, event: SetupEvent<R, K, E>) -> SetupStep<R, K, C, E> {
    match event {
        SetupEvent::GatewayDetails(Err(e)) => SetupStep::Finished(Err(ClientCoreError::UnavailableGatewayDetails {
            gateway_id: phase->gateway_id,
            source: e,
        })),
        SetupEvent::GatewayDetails(Ok(r)) => keys_request(r),
        SetupEvent::ActiveGateway(Err(e)) => SetupStep::Finished(Err(ClientCoreError::GatewayDetailsStoreError { source: e })),
        SetupEvent::ActiveGateway(Ok(None)) => SetupStep::Finished(Err(ClientCoreError::NoActiveGatewaySet)),
        SetupEvent::ActiveGateway(Ok(Some(r))) => keys_request(r),
        SetupEvent::ClientKeys(Err(e)) => SetupStep::Finished(Err(ClientCoreError::KeyStoreError { source: e })),
        SetupEvent::ClientKeys(Ok(k)) => SetupStep::Finished(Ok(InitialisationResult {
            gateway_registration: phase->registration,
            client_keys: k,
            authenticated_ephemeral_client: None,
        })),
    }
}

/// The active gateway's details as the store gave them: a store failure, no
/// active gateway, or the registration.
pub fn active_gateway_outcome<R, E>(stored: Result<Option<R>, E>) -> (res: Result<R, ClientCoreError<E>>)
    ensures
        match stored {
            Err(e) => res == Err::<R, ClientCoreError<E>>(ClientCoreError::GatewayDetailsStoreError { source: e }),
            Ok(None) => res == Err::<R, ClientCoreError<E>>(ClientCoreError::NoActiveGatewaySet),
            Ok(Some(r)) => res == Ok::<R, ClientCoreError<E>>(r),
        },
{
    match stored {
        Err(source) => Err(ClientCoreError::GatewayDetailsStoreError { source }),
        Ok(None) => Err(ClientCoreError::NoActiveGatewaySet),
        Ok(Some(r)) => Ok(r),
    }
}

/// A named gateway's details as the store gave them; a store failure names the
/// gateway.
pub fn gateway_details_outcome<R, E>(gateway_id: &str, stored: Result<R, E>) -> (res: Result<R, ClientCoreError<E>>)
    ensures
        match stored {
            Err(e) => res matches Err(ClientCoreError::UnavailableGatewayDetails { gateway_id: id, source })
                && id@ == gateway_id@ && source == e,
            Ok(r) => res == Ok::<R, ClientCoreError<E>>(r),
        },
{
    match stored {
        Err(source) => Err(ClientCoreError::UnavailableGatewayDetails { gateway_id: gateway_id.to_owned(), source }),
        Ok(r) => Ok(r),
    }
}

/// A key store's answer, with its failure wrapped as a key store error.
pub fn key_store_outcome<T, E>(answer: Result<T, E>) -> (res: Result<T, ClientCoreError<E>>)
    ensures
        match answer {
            Err(e) => res == Err::<T, ClientCoreError<E>>(ClientCoreError::KeyStoreError { source: e }),
            Ok(v) => res == Ok::<T, ClientCoreError<E>>(v),
        },
{
    match answer {
        Err(source) => Err(ClientCoreError::KeyStoreError { source }),
        Ok(v) => Ok(v),
    }
}

/// Setting up from stored details: of the named gateway, or of the active one when
/// no name is given.
pub fn use_loaded_gateway_details<R, K, C, E>(gateway_id: Option<String>) -> (res: SetupStep<R, K, C, E>)
    ensures
        match gateway_id {
            Some(id) => res matches SetupStep::Request {
                phase: SetupPhase::AwaitingGatewayDetails { gateway_id: p },
                request: SetupRequest::LoadGatewayDetails { gateway_id: q },
            } && p@ == id@ && q@ == id@,
            None => res matches SetupStep::Request {
                phase: SetupPhase::AwaitingActiveGateway,
                request: SetupRequest::LoadActiveGateway,
            },
        },
{
    match gateway_id {
        Some(id) => {
            let requested = id.clone();
            SetupStep::Request {
                phase: SetupPhase::AwaitingGatewayDetails { gateway_id: id },
                request: SetupRequest::LoadGatewayDetails { gateway_id: requested },
            }
        },
        None => SetupStep::Request {
            phase: SetupPhase::AwaitingActiveGateway,
            request: SetupRequest::LoadActiveGateway,
        },
    }
}

/// Setting up a new gateway starts by loading the client's long-term keys, which
/// must have been generated before.
pub fn setup_new_gateway<R, K, C, E>() -> (res: SetupStep<R, K, C, E>)
    ensures
        res matches SetupStep::Request {
            phase: SetupPhase::AwaitingKeysForNew,
            request: SetupRequest::LoadClientKeys,
        },
{
    SetupStep::Request { phase: SetupPhase::AwaitingKeysForNew, request: SetupRequest::LoadClientKeys }
}

/// The result of reusing an authenticated connection: nothing is loaded or stored.
pub fn reuse_gateway_connection<R, K, C>(
    authenticated_ephemeral_client: C,
    gateway_registration: R,
    client_keys: K,
) -> (res: InitialisationResult<R, K, C>)
    ensures
        res.gateway_registration == gateway_registration,
        res.client_keys == client_keys,
        res.authenticated_ephemeral_client == Some(authenticated_ephemeral_client),
{
    InitialisationResult {
        gateway_registration,
        client_keys,
        authenticated_ephemeral_client: Some(authenticated_ephemeral_client),
    }
}

/// The first step of a gateway setup.
pub fn setup_gateway<S, N, C, R, K, E>(setup: GatewaySetup<S, N, C, R, K>) -> (res: SetupStep<R, K, C, E>)
    ensures
        match setup {
            GatewaySetup::MustLoad { gateway_id: Some(id) } => res matches SetupStep::Request {
                phase: SetupPhase::AwaitingGatewayDetails { gateway_id: p },
                request: SetupRequest::LoadGatewayDetails { gateway_id: q },
            } && p@ == id@ && q@ == id@,
            GatewaySetup::MustLoad { gateway_id: None } => res matches SetupStep::Request {
                phase: SetupPhase::AwaitingActiveGateway,
                request: SetupRequest::LoadActiveGateway,
            },
            GatewaySetup::New { .. } => res matches SetupStep::Request {
                phase: SetupPhase::AwaitingKeysForNew,
                request: SetupRequest::LoadClientKeys,
            },
            GatewaySetup::ReuseConnection { authenticated_ephemeral_client, gateway_details, managed_keys } =>
                res == SetupStep::<R, K, C, E>::Finished(Ok(InitialisationResult {
                    gateway_registration: gateway_details,
                    client_keys: managed_keys,
                    authenticated_ephemeral_client: Some(authenticated_ephemeral_client),
                })),
        },
{
    match setup {
        GatewaySetup::MustLoad { gateway_id } => use_loaded_gateway_details(gateway_id),
        GatewaySetup::New { .. } => setup_new_gateway(),
        GatewaySetup::ReuseConnection { authenticated_ephemeral_client, gateway_details, managed_keys } =>
            SetupStep::Finished(Ok(reuse_gateway_connection(authenticated_ephemeral_client, gateway_details, managed_keys))),
    }
}

/// The next step of a setup waiting in `phase` once the store's answer `event`
/// arrives. A new gateway setup whose keys loaded reaches a step that is not
/// implemented, so that answer is not accepted here.
pub fn advance_setup<R, K, C, E>(phase: SetupPhase<R>, event: SetupEvent<R, K, E>) -> (res: SetupStep<R, K, C, E>)
    requires
        event_fits(phase, event),
        !reaches_unimplemented(phase, event),
    ensures
        match (phase, event) {
            (SetupPhase::AwaitingGatewayDetails { gateway_id }, SetupEvent::GatewayDetails(Err(e))) =>
                res matches SetupStep::Finished(Err(ClientCoreError::UnavailableGatewayDetails { gateway_id: id, source }))
                    && id@ == gateway_id@ && source == e,
            _ => res == spec_advance::<R, K, C, E>(phase, event),
        },
{
    match (phase, event) {
        (SetupPhase::AwaitingGatewayDetails { gateway_id }, SetupEvent::GatewayDetails(stored)) => {
            match gateway_details_outcome(gateway_id.as_str(), stored) {
                Ok(registration) => SetupStep::Request {
                    phase: SetupPhase::AwaitingKeysForLoaded { registration },
                    request: SetupRequest::LoadClientKeys,
                },
                Err(e) => SetupStep::Finished(Err(e)),
            }
        },
        (SetupPhase::AwaitingActiveGateway, SetupEvent::ActiveGateway(stored)) => match active_gateway_outcome(stored) {
            Ok(registration) => SetupStep::Request {
                phase: SetupPhase::AwaitingKeysForLoaded { registration },
                request: SetupRequest::LoadClientKeys,
            },
            Err(e) => SetupStep::Finished(Err(e)),
        },
        (SetupPhase::AwaitingKeysForLoaded { registration }, SetupEvent::ClientKeys(loaded)) => match key_store_outcome(loaded) {
            Ok(client_keys) => SetupStep::Finished(Ok(InitialisationResult::new_loaded(registration, client_keys))),
            Err(e) => SetupStep::Finished(Err(e)),
        },
        (SetupPhase::AwaitingKeysForNew, SetupEvent::ClientKeys(loaded)) => match key_store_outcome(loaded) {
            Ok(_) => unreached(),
            Err(e) => SetupStep::Finished(Err(e)),
        },
        _ => unreached(),
    }
}

/// A store's answer that reports a failure, or the absence of an active gateway.
pub open spec fn is_failure<R, K, E>(event: SetupEvent<R, K, E>) -> bool {
    match event {
        SetupEvent::GatewayDetails(Err(_)) => true,
        SetupEvent::ActiveGateway(Err(_)) => true,
        SetupEvent::ActiveGateway(Ok(None)) => true,
        SetupEvent::ClientKeys(Err(_)) => true,
        _ => false,
    }
}

/// A setup ends with an error exactly when a store reports a failure (or that no
/// gateway is active); nothing further is asked of any store after that.
pub proof fn law_failure_ends_setup<R, K, C, E>(phase: SetupPhase<R>, event: SetupEvent<R, K, E>)
    requires
        event_fits(phase, event),
        !reaches_unimplemented(phase, event),
    ensures
        is_failure(event) <==> spec_advance::<R, K, C, E>(phase, event) matches SetupStep::Finished(Err(_)),
{
}

/// A setup finishes successfully only on the client keys, after a registration was
/// loaded, and then with that registration, those keys and no open connection.
pub proof fn law_loaded_setup_result<R, K, C, E>(phase: SetupPhase<R>, event: SetupEvent<R, K, E>)
    requires
        event_fits(phase, event),
        !reaches_unimplemented(phase, event),
    ensures
        spec_advance::<R, K, C, E>(phase, event) matches SetupStep::Finished(Ok(res)) ==> {
            &&& phase matches SetupPhase::AwaitingKeysForLoaded { registration }
            &&& event matches SetupEvent::ClientKeys(Ok(keys))
            &&& res.gateway_registration == registration
            &&& res.client_keys == keys
            &&& res.authenticated_ephemeral_client is None
        },
{
}

/// Once gateway details arrive, the setup asks for the client keys next and keeps
/// the registration it got while it waits.
pub proof fn law_details_then_keys<R, K, C, E>(phase: SetupPhase<R>, event: SetupEvent<R, K, E>)
    requires
        event_fits(phase, event),
        !reaches_unimplemented(phase, event),
    ensures
        spec_advance::<R, K, C, E>(phase, event) matches SetupStep::Request { phase: next, request } ==> {
            &&& request is LoadClientKeys
            &&& next matches SetupPhase::AwaitingKeysForLoaded { registration }
            &&& (event matches SetupEvent::GatewayDetails(Ok(r)) && r == registration)
                || (event matches SetupEvent::ActiveGateway(Ok(Some(r))) && r == registration)
        },
{
}

/// Each failure a store reports ends the setup with the error that names it and
/// carries the store's own error: a named gateway's details unavailable (with that
/// name), the details store failing, no active gateway, or the key store failing.
pub proof fn law_failure_reports_store_error<R, K, C, E>(phase: SetupPhase<R>, event: SetupEvent<R, K, E>)
    requires
        event_fits(phase, event),
    ensures
        event matches SetupEvent::GatewayDetails(Err(e)) ==> spec_advance::<R, K, C, E>(phase, event)
            == SetupStep::<R, K, C, E>::Finished(Err(ClientCoreError::UnavailableGatewayDetails {
                gateway_id: phase->gateway_id,
                source: e,
            })),
        event matches SetupEvent::ActiveGateway(Err(e)) ==> spec_advance::<R, K, C, E>(phase, event)
            == SetupStep::<R, K, C, E>::Finished(Err(ClientCoreError::GatewayDetailsStoreError { source: e })),
        event matches SetupEvent::ActiveGateway(Ok(None)) ==> spec_advance::<R, K, C, E>(phase, event)
            == SetupStep::<R, K, C, E>::Finished(Err(ClientCoreError::NoActiveGatewaySet)),
        event matches SetupEvent::ClientKeys(Err(e)) ==> spec_advance::<R, K, C, E>(phase, event)
            == SetupStep::<R, K, C, E>::Finished(Err(ClientCoreError::KeyStoreError { source: e })),
{
}

} // verus!
