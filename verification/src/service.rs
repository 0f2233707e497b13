//! The session message router for login streams: one session owns a message
//! count and the password flow's phase, consumes inbound messages in arrival
//! order, and produces outbound messages of which exactly one is terminal.
//!
//! The password flow's engine calls are asynchronous collaborators: a step
//! that needs the engine returns the request, and the driver feeds the
//! engine's result back through the engine step.

use vstd::prelude::*;
use crate::messages::{LoginRequestData, LoginResponseData, PakeLoginRequest, PakeLoginResponse};
use crate::pake::{LoginEngineRequest, LoginEngineResult};
use crate::status::{
    Status, StatusCode, StoreErrorKind, same_status, spec_store_error_status, status_is,
    store_error_status,
};
use crate::store::IdentityStore;
use crate::token::AuthType;
use crate::wallet::{wallet_login_helper, wallet_login_outcome};

verus! {

/// Relies on `core::mem::replace`: moves `src` into `*dest` and returns the
/// value `*dest` held before.
pub assume_specification<T>[ core::mem::replace ](dest: &mut T, src: T) -> (r: T)
    ensures
        r == *old(dest),
        *final(dest) == src,
;

/// One inbound item of a login stream, as the router sees it.
pub enum LoginInbound {
    /// A message, with its payload, or `None` when the payload was empty.
    Message(Option<LoginRequestData>),
    /// A transport-level read error.
    ReadError,
}

/// The password flow's progress within one login session.
pub enum PakeLoginPhase {
    /// No password-flow message has been accepted.
    NotStarted,
    /// A credential request was accepted; the engine's login-start result is
    /// awaited.
    StartPending { user_id: String, device_id: String },
    /// The credential response was sent; the client's finalization is
    /// awaited. Holds the engine's opaque login state, which is single-use.
    Started { user_id: String, device_id: String, login_state: Vec<u8> },
    /// The finalization was accepted and the retained login state consumed;
    /// the engine's login-finish result is awaited.
    FinishPending { user_id: String, device_id: String },
}

/// One login session's in-memory state. It is owned by one stream for that
/// stream's lifetime and never shared.
pub struct LoginSession {
    /// How many inbound messages this session has accepted.
    pub num_messages_received: u8,
    /// The password flow's phase.
    pub pake: PakeLoginPhase,
    /// Whether the terminal response has been produced. A responded session
    /// accepts no further step.
    pub responded: bool,
}

/// What one step of the router produced.
pub enum LoginStep {
    /// An intermediate message to write back; the session continues.
    Send(LoginResponseData),
    /// The step needs the engine: run the request and feed the result to
    /// `login_engine_step`.
    Engine(LoginEngineRequest),
    /// The terminal response; exactly one per session.
    Respond(Result<LoginResponseData, Status>),
}

/// The one rejection the password flow shows for an unknown user and for a
/// failed handshake alike: the anti-enumeration policy forbids telling the
/// two apart from outside.
pub open spec fn spec_login_rejection(st: Status) -> bool {
    status_is(st, StatusCode::Unauthenticated, "login failed"@)
}

/// Builds the password flow's uniform rejection.
fn login_rejection() -> (st: Status)
    ensures
        spec_login_rejection(st),
{
    Status::new(StatusCode::Unauthenticated, "login failed")
}

impl LoginSession {
    /// Phase data is consistent with the message count, and the identifiers
    /// a phase retains are non-empty.
    pub open spec fn wf(&self) -> bool {
        match self.pake {
            PakeLoginPhase::NotStarted => true,
            PakeLoginPhase::StartPending { user_id, device_id } => user_id@.len() > 0
                && device_id@.len() > 0 && self.num_messages_received == 1,
            PakeLoginPhase::Started { user_id, device_id, login_state } => user_id@.len() > 0
                && device_id@.len() > 0 && self.num_messages_received == 1,
            PakeLoginPhase::FinishPending { user_id, device_id } => user_id@.len() > 0
                && device_id@.len() > 0 && self.num_messages_received == 2,
        }
    }

    /// A fresh session: nothing received, nothing responded.
    pub fn new() -> (r: LoginSession)
        ensures
            r.wf(),
            r.num_messages_received == 0,
            r.pake matches PakeLoginPhase::NotStarted,
            !r.responded,
    {
        LoginSession {
            num_messages_received: 0,
            pake: PakeLoginPhase::NotStarted,
            responded: false,
        }
    }
}

/// The relation one message step satisfies: given the stores and sessions
/// before and after, the inbound item, and the step's result.
pub open spec fn login_message_transition(
    s0: IdentityStore,
    s1: IdentityStore,
    q0: LoginSession,
    q1: LoginSession,
    inbound: LoginInbound,
    r: LoginStep,
) -> bool {
    match inbound {
        LoginInbound::ReadError => {
            &&& r matches LoginStep::Respond(res) && res matches Err(st)
                && status_is(st, StatusCode::Unknown, "unknown error"@)
            &&& s1.tokens() == s0.tokens()
            &&& q1.pake == q0.pake && q1.num_messages_received == q0.num_messages_received
        },
        LoginInbound::Message(None) => {
            &&& r matches LoginStep::Respond(res) && res matches Err(st)
                && status_is(st, StatusCode::InvalidArgument, "invalid message"@)
            &&& s1.tokens() == s0.tokens()
            &&& q1.pake == q0.pake && q1.num_messages_received == q0.num_messages_received
        },
        LoginInbound::Message(Some(LoginRequestData::WalletLoginRequest(req))) => {
            &&& (match r {
                LoginStep::Respond(res) => match res {
                    Ok(LoginResponseData::WalletLoginResponse(resp)) => wallet_login_outcome(
                        s0,
                        s1,
                        req,
                        q0.num_messages_received,
                        Ok(resp),
                    ),
                    Err(st) => wallet_login_outcome(
                        s0,
                        s1,
                        req,
                        q0.num_messages_received,
                        Err(st),
                    ),
                    _ => false,
                },
                _ => false,
            })
            &&& q1.pake == q0.pake && q1.num_messages_received == q0.num_messages_received
        },
        LoginInbound::Message(
            Some(
                LoginRequestData::PakeLoginRequest(
                    PakeLoginRequest::PakeCredentialRequestAndUserId {
                        user_id,
                        device_id,
                        pake_credential_request,
                    },
                ),
            ),
        ) => {
            if q0.num_messages_received != 0 {
                &&& r matches LoginStep::Respond(res) && res matches Err(st)
                    && status_is(st, StatusCode::Aborted, "please retry"@)
                &&& s1.tokens() == s0.tokens()
                &&& q1.pake == q0.pake && q1.num_messages_received == q0.num_messages_received
            } else if user_id@.len() == 0 || device_id@.len() == 0 {
                &&& r matches LoginStep::Respond(res) && res matches Err(st)
                    && status_is(st, StatusCode::Aborted, "user not found"@)
                &&& s1.tokens() == s0.tokens()
                &&& q1.pake == q0.pake && q1.num_messages_received == q0.num_messages_received
            } else if !s0.regs().contains_key(user_id@) {
                &&& r matches LoginStep::Respond(res) && res matches Err(st)
                    && spec_login_rejection(st)
                &&& s1.tokens() == s0.tokens()
                &&& q1.pake == q0.pake && q1.num_messages_received == q0.num_messages_received
            } else {
                &&& r matches LoginStep::Engine(e) && e matches
                    LoginEngineRequest::ServerLoginStart {
                        credential_record,
                        pake_credential_request: req_out,
                    } && credential_record@ == s0.regs()[user_id@] && req_out@
                    == pake_credential_request@
                &&& q1.pake matches PakeLoginPhase::StartPending { user_id: u, device_id: d }
                    && u@ == user_id@ && d@ == device_id@
                &&& q1.num_messages_received == 1
                &&& s1.tokens() == s0.tokens()
            }
        },
        LoginInbound::Message(
            Some(
                LoginRequestData::PakeLoginRequest(
                    PakeLoginRequest::PakeCredentialFinalization(finalization),
                ),
            ),
        ) => {
            match q0.pake {
                PakeLoginPhase::Started { user_id, device_id, login_state } => {
                    &&& r matches LoginStep::Engine(e) && e matches
                        LoginEngineRequest::ServerLoginFinish {
                            login_state: state_out,
                            pake_credential_finalization: fin_out,
                        } && state_out@ == login_state@ && fin_out@ == finalization@
                    &&& q1.pake matches PakeLoginPhase::FinishPending {
                        user_id: u,
                        device_id: d,
                    } && u@ == user_id@ && d@ == device_id@
                    &&& q1.num_messages_received == 2
                    &&& s1.tokens() == s0.tokens()
                },
                _ => {
                    &&& r matches LoginStep::Respond(res) && res matches Err(st)
                        && status_is(st, StatusCode::Aborted, "please retry"@)
                    &&& s1.tokens() == s0.tokens()
                    &&& q1.pake == q0.pake && q1.num_messages_received == q0.num_messages_received
                },
            }
        },
    }
}

/// Routes one inbound item of a login stream. An empty payload and a read
/// error terminate at once; a wallet message is single-shot; the password
/// flow's two messages thread phase state and hand the engine work to the
/// driver.
pub fn login_message_step(
    store: &mut IdentityStore,
    session: &mut LoginSession,
    inbound: LoginInbound,
) -> (r: LoginStep)
    requires
        old(store).wf(),
        old(session).wf(),
        !old(session).responded,
    ensures
        final(store).wf(),
        final(session).wf(),
        final(store).regs() == old(store).regs(),
        final(session).responded == (r matches LoginStep::Respond(_)),
        login_message_transition(
            *old(store),
            *final(store),
            *old(session),
            *final(session),
            inbound,
            r,
        ),
{
    match inbound {
        LoginInbound::ReadError => {
            session.responded = true;
            LoginStep::Respond(Err(Status::new(StatusCode::Unknown, "unknown error")))
        },
        LoginInbound::Message(None) => {
            session.responded = true;
            LoginStep::Respond(Err(Status::new(StatusCode::InvalidArgument, "invalid message")))
        },
        LoginInbound::Message(Some(LoginRequestData::WalletLoginRequest(req))) => {
            let res = wallet_login_helper(store, req, session.num_messages_received);
            session.responded = true;
            match res {
                Ok(resp) => LoginStep::Respond(Ok(LoginResponseData::WalletLoginResponse(resp))),
                Err(st) => LoginStep::Respond(Err(st)),
            }
        },
        LoginInbound::Message(
            Some(
                LoginRequestData::PakeLoginRequest(
                    PakeLoginRequest::PakeCredentialRequestAndUserId {
                        user_id,
                        device_id,
                        pake_credential_request,
                    },
                ),
            ),
        ) => {
            if session.num_messages_received != 0 {
                session.responded = true;
                return LoginStep::Respond(Err(Status::new(StatusCode::Aborted, "please retry")));
            }
            if user_id.as_str().is_empty() || device_id.as_str().is_empty() {
                session.responded = true;
                return LoginStep::Respond(Err(Status::new(StatusCode::Aborted, "user not found")));
            }
            match store.get_pake_registration(&user_id) {
                None => {
                    session.responded = true;
                    LoginStep::Respond(Err(login_rejection()))
                },
                Some(credential_record) => {
                    session.pake = PakeLoginPhase::StartPending { user_id, device_id };
                    session.num_messages_received = 1;
                    LoginStep::Engine(LoginEngineRequest::ServerLoginStart {
                        credential_record,
                        pake_credential_request,
                    })
                },
            }
        },
        LoginInbound::Message(
            Some(
                LoginRequestData::PakeLoginRequest(
                    PakeLoginRequest::PakeCredentialFinalization(finalization),
                ),
            ),
        ) => {
            let started = matches!(session.pake, PakeLoginPhase::Started { .. });
            if !started {
                session.responded = true;
                return LoginStep::Respond(Err(Status::new(StatusCode::Aborted, "please retry")));
            }
            let phase = core::mem::replace(&mut session.pake, PakeLoginPhase::NotStarted);
            match phase {
                PakeLoginPhase::Started { user_id, device_id, login_state } => {
                    session.pake = PakeLoginPhase::FinishPending { user_id, device_id };
                    session.num_messages_received = 2;
                    LoginStep::Engine(LoginEngineRequest::ServerLoginFinish {
                        login_state,
                        pake_credential_finalization: finalization,
                    })
                },
                _ => {
                    proof {
                        assert(false);
                    }
                    LoginStep::Respond(Err(Status::new(StatusCode::Aborted, "please retry")))
                },
            }
        },
    }
}

/// The relation one engine step satisfies.
pub open spec fn login_engine_transition(
    s0: IdentityStore,
    s1: IdentityStore,
    q0: LoginSession,
    q1: LoginSession,
    result: LoginEngineResult,
    r: LoginStep,
) -> bool {
    match q0.pake {
        PakeLoginPhase::StartPending { user_id, device_id } => {
            match result {
                LoginEngineResult::StartOk { pake_credential_response, login_state } => {
                    &&& r matches LoginStep::Send(
                        LoginResponseData::PakeLoginResponse(
                            PakeLoginResponse::PakeCredentialResponse(resp),
                        ),
                    ) && resp@ == pake_credential_response@
                    &&& q1.pake matches PakeLoginPhase::Started {
                        user_id: u,
                        device_id: d,
                        login_state: st,
                    } && u@ == user_id@ && d@ == device_id@ && st@ == login_state@
                    &&& q1.num_messages_received == q0.num_messages_received
                    &&& s1.tokens() == s0.tokens()
                },
                LoginEngineResult::Failed(_) => {
                    &&& r matches LoginStep::Respond(res) && res matches Err(st)
                        && status_is(st, StatusCode::InvalidArgument, "invalid message"@)
                    &&& s1.tokens() == s0.tokens()
                    &&& q1.pake == q0.pake && q1.num_messages_received == q0.num_messages_received
                },
                _ => false,
            }
        },
        PakeLoginPhase::FinishPending { user_id, device_id } => {
            match result {
                LoginEngineResult::FinishOk { session_key } => {
                    &&& r matches LoginStep::Respond(res) && res matches Ok(
                        LoginResponseData::PakeLoginResponse(
                            PakeLoginResponse::AccessToken(tok),
                        ),
                    ) && crate::token::valid_token(tok@)
                        && s1.tokens().contains_key((user_id@, device_id@))
                        && s1.tokens()[(user_id@, device_id@)].token == tok@
                        && s1.tokens()[(user_id@, device_id@)].auth_type == AuthType::Password
                        && s1.tokens()[(user_id@, device_id@)].valid == true
                        && s1.tokens() == s0.tokens().insert(
                        (user_id@, device_id@),
                        s1.tokens()[(user_id@, device_id@)],
                    )
                },
                LoginEngineResult::Failed(_) => {
                    &&& r matches LoginStep::Respond(res) && res matches Err(st)
                        && spec_login_rejection(st)
                    &&& s1.tokens() == s0.tokens()
                    &&& q1.pake == q0.pake && q1.num_messages_received == q0.num_messages_received
                },
                _ => false,
            }
        },
        _ => false,
    }
}

/// Feeds an engine result back into the session. A start failure is an
/// invalid argument; a finish failure (the handshake did not verify) shows
/// the same rejection as an unknown user; a finish success mints and
/// persists a password-tagged token.
pub fn login_engine_step(
    store: &mut IdentityStore,
    session: &mut LoginSession,
    result: LoginEngineResult,
) -> (r: LoginStep)
    requires
        old(store).wf(),
        old(session).wf(),
        !old(session).responded,
        (old(session).pake matches PakeLoginPhase::StartPending { .. }) || (old(
            session,
        ).pake matches PakeLoginPhase::FinishPending { .. }),
        old(session).pake matches PakeLoginPhase::StartPending { .. } ==> !(result
            matches LoginEngineResult::FinishOk { .. }),
        old(session).pake matches PakeLoginPhase::FinishPending { .. } ==> !(result
            matches LoginEngineResult::StartOk { .. }),
    ensures
        final(store).wf(),
        final(session).wf(),
        final(store).regs() == old(store).regs(),
        final(session).responded == (r matches LoginStep::Respond(_)),
        login_engine_transition(
            *old(store),
            *final(store),
            *old(session),
            *final(session),
            result,
            r,
        ),
{
    let start_pending = matches!(session.pake, PakeLoginPhase::StartPending { .. });
    if start_pending {
        match result {
            LoginEngineResult::StartOk { pake_credential_response, login_state } => {
                let phase = core::mem::replace(&mut session.pake, PakeLoginPhase::NotStarted);
                match phase {
                    PakeLoginPhase::StartPending { user_id, device_id } => {
                        session.pake = PakeLoginPhase::Started {
                            user_id,
                            device_id,
                            login_state,
                        };
                        LoginStep::Send(LoginResponseData::PakeLoginResponse(
                            PakeLoginResponse::PakeCredentialResponse(pake_credential_response),
                        ))
                    },
                    _ => {
                        proof {
                            assert(false);
                        }
                        LoginStep::Respond(Err(login_rejection()))
                    },
                }
            },
            _ => {
                session.responded = true;
                LoginStep::Respond(Err(Status::new(StatusCode::InvalidArgument, "invalid message")))
            },
        }
    } else {
        match result {
            LoginEngineResult::FinishOk { session_key: _ } => {
                let (user_id, device_id) = match &session.pake {
                    PakeLoginPhase::FinishPending { user_id, device_id } => (
                        user_id.clone(),
                        device_id.clone(),
                    ),
                    _ => {
                        proof {
                            assert(false);
                        }
                        (String::new(), String::new())
                    },
                };
                session.responded = true;
                match crate::wallet::put_token_helper(
                    store,
                    AuthType::Password,
                    &user_id,
                    &device_id,
                ) {
                    Ok(access_token) => LoginStep::Respond(Ok(
                        LoginResponseData::PakeLoginResponse(
                            PakeLoginResponse::AccessToken(access_token),
                        ),
                    )),
                    Err(_) => {
                        proof {
                            assert(false);
                        }
                        LoginStep::Respond(Err(login_rejection()))
                    },
                }
            },
            _ => {
                session.responded = true;
                LoginStep::Respond(Err(login_rejection()))
            },
        }
    }
}

/// Terminates a login session when a durable-store operation backing it
/// fails. The failure kind becomes the session's terminal response under
/// the external vocabulary: misconfiguration is a failed precondition, a
/// transient failure is retryable; nothing is retried here — retry policy
/// belongs to the caller.
pub fn login_store_failure_step(session: &mut LoginSession, kind: StoreErrorKind) -> (r: LoginStep)
    requires
        old(session).wf(),
        !old(session).responded,
    ensures
        final(session).wf(),
        final(session).responded,
        final(session).pake == old(session).pake,
        final(session).num_messages_received == old(session).num_messages_received,
        r matches LoginStep::Respond(res) && res matches Err(st) && spec_store_error_status(
            kind,
            st,
        ),
{
    session.responded = true;
    LoginStep::Respond(Err(store_error_status(kind)))
}

/// Law (anti-enumeration): the rejection shown when the password handshake
/// fails at the finish step is, code and message alike, the rejection shown
/// when the user has no registration at all.
pub proof fn lemma_anti_enumeration(st_unknown_user: Status, st_wrong_password: Status)
    requires
        spec_login_rejection(st_unknown_user),
        spec_login_rejection(st_wrong_password),
    ensures
        same_status(st_unknown_user, st_wrong_password),
{
}

/// Law: a user whose registration has just completed is never turned away
/// at login-start. The login step for that user proceeds to the engine with
/// the freshly persisted credential record; only the engine's own handshake
/// can still reject such a login.
pub proof fn lemma_register_then_login_start(
    s0: IdentityStore,
    s1: IdentityStore,
    q0: crate::registration::RegistrationSession,
    q1: crate::registration::RegistrationSession,
    reg_result: crate::pake::RegistrationEngineResult,
    r_reg: crate::registration::RegistrationStep,
    s2: IdentityStore,
    p0: LoginSession,
    p1: LoginSession,
    inbound: LoginInbound,
    r_login: LoginStep,
)
    requires
        crate::registration::registration_engine_transition(s0, s1, q0, q1, reg_result, r_reg),
        reg_result matches crate::pake::RegistrationEngineResult::FinishOk { .. },
        login_message_transition(s1, s2, p0, p1, inbound, r_login),
        p0.num_messages_received == 0,
        ({
            &&& q0.phase matches crate::registration::RegistrationPhase::FinishPending {
                user_id: registered_user,
            }
            &&& inbound matches LoginInbound::Message(
                Some(
                    LoginRequestData::PakeLoginRequest(
                        PakeLoginRequest::PakeCredentialRequestAndUserId {
                            user_id: login_user,
                            device_id: login_device,
                            ..
                        },
                    ),
                ),
            )
            &&& login_user@ == registered_user@
            &&& login_user@.len() > 0
            &&& login_device@.len() > 0
        }),
    ensures
        r_login matches LoginStep::Engine(_),
{
}

/// Law: the wallet flow is single-shot. A wallet message is always answered
/// terminally in the same step, and one arriving after any earlier message
/// is rejected with the excess-message abort.
pub proof fn lemma_wallet_single_shot(
    s0: IdentityStore,
    s1: IdentityStore,
    q0: LoginSession,
    q1: LoginSession,
    inbound: LoginInbound,
    r: LoginStep,
)
    requires
        login_message_transition(s0, s1, q0, q1, inbound, r),
        inbound matches LoginInbound::Message(
            Some(LoginRequestData::WalletLoginRequest(_)),
        ),
    ensures
        r matches LoginStep::Respond(_),
        q0.num_messages_received != 0 ==> (r matches LoginStep::Respond(res) && res matches Err(
            st,
        ) && status_is(st, StatusCode::Aborted, "please retry"@) && s1.tokens() == s0.tokens()),
{
}

} // verus!
