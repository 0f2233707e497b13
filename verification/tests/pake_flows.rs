//! The password (PAKE) flows, driven end to end against the real engine: the
//! client-side adapter calls, and full register-then-login sessions through
//! the verified orchestrators.

use identity::messages::{
    LoginRequestData, LoginResponseData, PakeLoginRequest, PakeLoginResponse,
    RegistrationRequestData, RegistrationResponseData,
};
use identity::pake::{
    LoginEngineRequest, LoginEngineResult, PakeProtocolError, RegistrationEngineRequest,
    RegistrationEngineResult,
};
use identity::registration::{
    registration_engine_step, registration_message_step, RegistrationInbound, RegistrationSession,
    RegistrationStep,
};
use identity::service::{login_engine_step, login_message_step, LoginInbound, LoginSession, LoginStep};
use identity::status::StatusCode;
use identity::store::IdentityStore;
use identity::validator::verify_user_token;

use opaque_ke::ciphersuite::CipherSuite;
use opaque_ke::errors::ProtocolError;
use opaque_ke::{
    ClientLogin, ClientLoginFinishParameters, ClientRegistration,
    ClientRegistrationFinishParameters, CredentialFinalization, CredentialRequest,
    CredentialResponse, RegistrationRequest, RegistrationResponse, RegistrationUpload,
    ServerLogin, ServerLoginStartParameters, ServerRegistration, ServerSetup,
};
use rand::rngs::OsRng;

struct Cipher;

impl CipherSuite for Cipher {
    type Group = curve25519_dalek::ristretto::RistrettoPoint;
    type KeyExchange = opaque_ke::key_exchange::tripledh::TripleDH;
    type Hash = sha2::Sha512;
    type SlowHash = argon2::Argon2<'static>;
}

struct MessageState {
    message: Vec<u8>,
    state: Vec<u8>,
}

fn client_register_cxx(password: String) -> Result<MessageState, ProtocolError> {
    let mut client_rng = OsRng;
    let c = ClientRegistration::<Cipher>::start(&mut client_rng, password.as_bytes())?;
    Ok(MessageState {
        message: c.message.serialize(),
        state: c.state.serialize(),
    })
}

fn client_login_cxx(password: String) -> Result<MessageState, ProtocolError> {
    let mut client_rng = OsRng;
    let c = ClientLogin::<Cipher>::start(&mut client_rng, password.as_bytes())?;
    Ok(MessageState {
        message: c.message.serialize(),
        state: c.state.serialize(),
    })
}

fn engine_error(e: ProtocolError) -> PakeProtocolError {
    match e {
        ProtocolError::VerificationError(_) => PakeProtocolError::Verification,
        ProtocolError::InvalidInnerEnvelopeError => PakeProtocolError::InvalidInnerEnvelope,
        ProtocolError::ServerError => PakeProtocolError::Server,
        ProtocolError::ServerInvalidEnvelopeCredentialsFormatError => {
            PakeProtocolError::InvalidEnvelopeCredentialsFormat
        }
        ProtocolError::ClientError => PakeProtocolError::Client,
    }
}

#[test]
fn test_client_register_cxx_ok() {
    let password = String::from("hunter2");
    assert!(client_register_cxx(password).is_ok());
}

#[test]
fn test_client_register_cxx_ok_empty_string() {
    let password = String::from("");
    assert!(client_register_cxx(password).is_ok());
}

#[test]
fn test_client_login_cxx_ok() {
    let password = String::from("hunter2");
    assert!(client_login_cxx(password).is_ok());
}

#[test]
fn test_client_login_cxx_ok_empty_string() {
    let password = String::from("");
    assert!(client_login_cxx(password).is_ok());
}

/// Drives a full registration session for `user_id` with `password` through
/// the verified orchestrator, running the engine between the steps.
fn register_user(
    store: &mut IdentityStore,
    server_setup: &ServerSetup<Cipher>,
    user_id: &str,
    password: &str,
) {
    let mut rng = OsRng;
    let mut session = RegistrationSession::new();
    let client_start = ClientRegistration::<Cipher>::start(&mut rng, password.as_bytes()).unwrap();

    let step = registration_message_step(
        store,
        &mut session,
        RegistrationInbound::Message(Some(
            RegistrationRequestData::PakeRegistrationRequestAndUserId {
                user_id: user_id.to_string(),
                pake_registration_request: client_start.message.serialize(),
            },
        )),
    );
    let request_bytes = match step {
        RegistrationStep::Engine(RegistrationEngineRequest::ServerRegistrationStart {
            pake_registration_request,
        }) => pake_registration_request,
        _ => panic!("expected a registration-start engine request"),
    };

    let request = RegistrationRequest::<Cipher>::deserialize(&request_bytes).unwrap();
    let server_start =
        ServerRegistration::<Cipher>::start(server_setup, request, user_id.as_bytes()).unwrap();
    let step = registration_engine_step(
        store,
        &mut session,
        RegistrationEngineResult::StartOk {
            pake_registration_response: server_start.message.serialize(),
            registration_state: Vec::new(),
        },
    );
    let challenge = match step {
        RegistrationStep::Send(RegistrationResponseData::PakeRegistrationResponse(c)) => c,
        _ => panic!("expected the registration challenge"),
    };

    let response = RegistrationResponse::<Cipher>::deserialize(&challenge).unwrap();
    let client_finish = client_start
        .state
        .finish(&mut rng, response, ClientRegistrationFinishParameters::Default)
        .unwrap();

    let step = registration_message_step(
        store,
        &mut session,
        RegistrationInbound::Message(Some(RegistrationRequestData::PakeRegistrationUpload(
            client_finish.message.serialize(),
        ))),
    );
    let upload_bytes = match step {
        RegistrationStep::Engine(RegistrationEngineRequest::ServerRegistrationFinish {
            pake_registration_upload,
            ..
        }) => pake_registration_upload,
        _ => panic!("expected a registration-finish engine request"),
    };

    let upload = RegistrationUpload::<Cipher>::deserialize(&upload_bytes).unwrap();
    let record = ServerRegistration::finish(upload);
    let step = registration_engine_step(
        store,
        &mut session,
        RegistrationEngineResult::FinishOk {
            credential_record: record.serialize(),
        },
    );
    match step {
        RegistrationStep::Respond(Ok(RegistrationResponseData::PakeRegistrationSuccess)) => {}
        _ => panic!("expected the registration to complete"),
    }
}

/// Drives a full password login session through the verified orchestrator,
/// running the engine between the steps, and returns its terminal outcome.
fn login_user(
    store: &mut IdentityStore,
    server_setup: &ServerSetup<Cipher>,
    user_id: &str,
    device_id: &str,
    password: &str,
) -> Result<String, identity::status::Status> {
    let mut rng = OsRng;
    let mut session = LoginSession::new();
    let client_start = ClientLogin::<Cipher>::start(&mut rng, password.as_bytes()).unwrap();

    let step = login_message_step(
        store,
        &mut session,
        LoginInbound::Message(Some(LoginRequestData::PakeLoginRequest(
            PakeLoginRequest::PakeCredentialRequestAndUserId {
                user_id: user_id.to_string(),
                device_id: device_id.to_string(),
                pake_credential_request: client_start.message.serialize(),
            },
        ))),
    );
    let (record_bytes, request_bytes) = match step {
        LoginStep::Engine(LoginEngineRequest::ServerLoginStart {
            credential_record,
            pake_credential_request,
        }) => (credential_record, pake_credential_request),
        LoginStep::Respond(Err(st)) => return Err(st),
        _ => panic!("expected a login-start engine request"),
    };

    let record = ServerRegistration::<Cipher>::deserialize(&record_bytes).unwrap();
    let request = CredentialRequest::<Cipher>::deserialize(&request_bytes).unwrap();
    let server_start = ServerLogin::start(
        &mut rng,
        server_setup,
        Some(record),
        request,
        user_id.as_bytes(),
        ServerLoginStartParameters::default(),
    )
    .unwrap();
    let step = login_engine_step(
        store,
        &mut session,
        LoginEngineResult::StartOk {
            pake_credential_response: server_start.message.serialize(),
            login_state: server_start.state.serialize(),
        },
    );
    let credential_response = match step {
        LoginStep::Send(LoginResponseData::PakeLoginResponse(
            PakeLoginResponse::PakeCredentialResponse(c),
        )) => c,
        _ => panic!("expected the credential response"),
    };

    let response = CredentialResponse::<Cipher>::deserialize(&credential_response).unwrap();
    let client_finish = match client_start
        .state
        .finish(response, ClientLoginFinishParameters::default())
    {
        Ok(f) => f.message.serialize(),
        // The client already knows the password was wrong; send garbage so
        // the server-side handshake fails as it would on the wire.
        Err(_) => Vec::new(),
    };

    let step = login_message_step(
        store,
        &mut session,
        LoginInbound::Message(Some(LoginRequestData::PakeLoginRequest(
            PakeLoginRequest::PakeCredentialFinalization(client_finish),
        ))),
    );
    let (state_bytes, finalization_bytes) = match step {
        LoginStep::Engine(LoginEngineRequest::ServerLoginFinish {
            login_state,
            pake_credential_finalization,
        }) => (login_state, pake_credential_finalization),
        _ => panic!("expected a login-finish engine request"),
    };

    let engine_result = match CredentialFinalization::<Cipher>::deserialize(&finalization_bytes) {
        Ok(finalization) => {
            let server_login = ServerLogin::<Cipher>::deserialize(&state_bytes).unwrap();
            match server_login.finish(finalization) {
                Ok(f) => LoginEngineResult::FinishOk {
                    session_key: f.session_key,
                },
                Err(e) => LoginEngineResult::Failed(engine_error(e)),
            }
        }
        Err(e) => LoginEngineResult::Failed(engine_error(e)),
    };
    let step = login_engine_step(store, &mut session, engine_result);
    match step {
        LoginStep::Respond(Ok(LoginResponseData::PakeLoginResponse(
            PakeLoginResponse::AccessToken(token),
        ))) => Ok(token),
        LoginStep::Respond(Err(st)) => Err(st),
        _ => panic!("expected a terminal login response"),
    }
}

#[test]
fn test_register_then_login_yields_valid_token() {
    let mut store = IdentityStore::new();
    let mut rng = OsRng;
    let server_setup = ServerSetup::<Cipher>::new(&mut rng);

    register_user(&mut store, &server_setup, "alice", "hunter2");
    let token = login_user(&mut store, &server_setup, "alice", "dev1", "hunter2")
        .expect("login with the registered password must succeed");
    assert_eq!(token.len(), 512);
    assert!(token.bytes().all(|b| b.is_ascii_alphanumeric()));

    assert!(verify_user_token(
        &store,
        &"alice".to_string(),
        &"dev1".to_string(),
        &token
    ));
    assert!(!verify_user_token(
        &store,
        &"alice".to_string(),
        &"dev1".to_string(),
        &"garbage".to_string()
    ));
}

#[test]
fn test_wrong_password_and_unknown_user_reject_alike() {
    let mut store = IdentityStore::new();
    let mut rng = OsRng;
    let server_setup = ServerSetup::<Cipher>::new(&mut rng);

    register_user(&mut store, &server_setup, "alice", "hunter2");
    let wrong_password = login_user(&mut store, &server_setup, "alice", "dev1", "wrong")
        .expect_err("a wrong password must be rejected");
    let unknown_user = login_user(&mut store, &server_setup, "mallory", "dev1", "hunter2")
        .expect_err("an unknown user must be rejected");

    assert_eq!(wrong_password.code, unknown_user.code);
    assert_eq!(wrong_password.message, unknown_user.message);
    assert_eq!(wrong_password.code, StatusCode::Unauthenticated);
}

#[test]
fn test_new_login_supersedes_previous_token() {
    let mut store = IdentityStore::new();
    let mut rng = OsRng;
    let server_setup = ServerSetup::<Cipher>::new(&mut rng);

    register_user(&mut store, &server_setup, "alice", "hunter2");
    let first = login_user(&mut store, &server_setup, "alice", "dev1", "hunter2").unwrap();
    let second = login_user(&mut store, &server_setup, "alice", "dev1", "hunter2").unwrap();

    assert_ne!(first, second);
    assert!(!verify_user_token(
        &store,
        &"alice".to_string(),
        &"dev1".to_string(),
        &first
    ));
    assert!(verify_user_token(
        &store,
        &"alice".to_string(),
        &"dev1".to_string(),
        &second
    ));
}

#[test]
fn test_registration_overwrites_credential_record() {
    let mut store = IdentityStore::new();
    let mut rng = OsRng;
    let server_setup = ServerSetup::<Cipher>::new(&mut rng);

    register_user(&mut store, &server_setup, "alice", "first-password");
    register_user(&mut store, &server_setup, "alice", "second-password");

    assert!(login_user(&mut store, &server_setup, "alice", "dev1", "first-password").is_err());
    assert!(login_user(&mut store, &server_setup, "alice", "dev1", "second-password").is_ok());
}

#[test]
fn test_login_start_engine_failure_is_invalid_argument() {
    let mut store = IdentityStore::new();
    let mut rng = OsRng;
    let server_setup = ServerSetup::<Cipher>::new(&mut rng);
    register_user(&mut store, &server_setup, "alice", "hunter2");

    let mut session = LoginSession::new();
    let step = login_message_step(
        &mut store,
        &mut session,
        LoginInbound::Message(Some(LoginRequestData::PakeLoginRequest(
            PakeLoginRequest::PakeCredentialRequestAndUserId {
                user_id: "alice".to_string(),
                device_id: "dev1".to_string(),
                pake_credential_request: vec![1, 2, 3],
            },
        ))),
    );
    let request_bytes = match step {
        LoginStep::Engine(LoginEngineRequest::ServerLoginStart {
            pake_credential_request,
            ..
        }) => pake_credential_request,
        _ => panic!("expected a login-start engine request"),
    };
    let engine_result = match CredentialRequest::<Cipher>::deserialize(&request_bytes) {
        Ok(_) => panic!("malformed request must not deserialize"),
        Err(e) => LoginEngineResult::Failed(engine_error(e)),
    };
    let step = login_engine_step(&mut store, &mut session, engine_result);
    match step {
        LoginStep::Respond(Err(st)) => {
            assert_eq!(st.code, StatusCode::InvalidArgument);
            assert_eq!(st.message, "invalid message");
        }
        _ => panic!("expected a terminal rejection"),
    }
}

#[test]
fn test_pake_finalization_before_start_is_aborted() {
    let mut store = IdentityStore::new();
    let mut session = LoginSession::new();
    let step = login_message_step(
        &mut store,
        &mut session,
        LoginInbound::Message(Some(LoginRequestData::PakeLoginRequest(
            PakeLoginRequest::PakeCredentialFinalization(vec![0; 8]),
        ))),
    );
    match step {
        LoginStep::Respond(Err(st)) => {
            assert_eq!(st.code, StatusCode::Aborted);
            assert_eq!(st.message, "please retry");
        }
        _ => panic!("expected a terminal rejection"),
    }
}

#[test]
fn test_registration_empty_payload_is_invalid_argument() {
    let mut store = IdentityStore::new();
    let mut session = RegistrationSession::new();
    let step = registration_message_step(&mut store, &mut session, RegistrationInbound::Message(None));
    match step {
        RegistrationStep::Respond(Err(st)) => {
            assert_eq!(st.code, StatusCode::InvalidArgument);
            assert_eq!(st.message, "invalid message");
        }
        _ => panic!("expected a terminal rejection"),
    }
}

#[test]
fn test_registration_read_error_is_unknown() {
    let mut store = IdentityStore::new();
    let mut session = RegistrationSession::new();
    let step = registration_message_step(&mut store, &mut session, RegistrationInbound::ReadError);
    match step {
        RegistrationStep::Respond(Err(st)) => {
            assert_eq!(st.code, StatusCode::Unknown);
            assert_eq!(st.message, "unknown error");
        }
        _ => panic!("expected a terminal rejection"),
    }
}

#[test]
fn test_registration_start_engine_failure_is_invalid_argument() {
    let mut store = IdentityStore::new();
    let mut session = RegistrationSession::new();
    let step = registration_message_step(
        &mut store,
        &mut session,
        RegistrationInbound::Message(Some(
            RegistrationRequestData::PakeRegistrationRequestAndUserId {
                user_id: "alice".to_string(),
                pake_registration_request: vec![0xff; 3],
            },
        )),
    );
    let request_bytes = match step {
        RegistrationStep::Engine(RegistrationEngineRequest::ServerRegistrationStart {
            pake_registration_request,
        }) => pake_registration_request,
        _ => panic!("expected a registration-start engine request"),
    };
    let engine_result = match RegistrationRequest::<Cipher>::deserialize(&request_bytes) {
        Ok(_) => panic!("malformed request must not deserialize"),
        Err(e) => RegistrationEngineResult::Failed(engine_error(e)),
    };
    let step = registration_engine_step(&mut store, &mut session, engine_result);
    match step {
        RegistrationStep::Respond(Err(st)) => {
            assert_eq!(st.code, StatusCode::InvalidArgument);
            assert_eq!(st.message, "invalid message");
        }
        _ => panic!("expected a terminal rejection"),
    }
}

#[test]
fn test_registration_upload_before_request_is_aborted() {
    let mut store = IdentityStore::new();
    let mut session = RegistrationSession::new();
    let step = registration_message_step(
        &mut store,
        &mut session,
        RegistrationInbound::Message(Some(RegistrationRequestData::PakeRegistrationUpload(
            vec![0; 8],
        ))),
    );
    match step {
        RegistrationStep::Respond(Err(st)) => {
            assert_eq!(st.code, StatusCode::Aborted);
            assert_eq!(st.message, "please retry");
        }
        _ => panic!("expected a terminal rejection"),
    }
}
