//! The registration orchestrator: drives the two-message PAKE registration
//! exchange and persists the resulting credential record. A completed
//! registration overwrites any previous record for the user wholesale; the
//! last write wins.

use vstd::prelude::*;
use crate::messages::{RegistrationRequestData, RegistrationResponseData};
use crate::pake::{RegistrationEngineRequest, RegistrationEngineResult};
use crate::status::{
    Status, StatusCode, StoreErrorKind, spec_store_error_status, status_is, store_error_status,
};
use crate::store::IdentityStore;

verus! {

/// One inbound item of a registration stream.
pub enum RegistrationInbound {
    /// A message, with its payload, or `None` when the payload was empty.
    Message(Option<RegistrationRequestData>),
    /// A transport-level read error.
    ReadError,
}

/// A registration session's progress.
pub enum RegistrationPhase {
    /// No registration message has been accepted.
    AwaitingRequest,
    /// A registration request was accepted; the engine's start result is
    /// awaited.
    StartPending { user_id: String },
    /// The challenge was sent; the client's upload is awaited. Holds the
    /// engine's opaque registration state, which is single-use.
    Challenged { user_id: String, registration_state: Vec<u8> },
    /// The upload was accepted and the retained state consumed; the engine's
    /// finish result is awaited.
    FinishPending { user_id: String },
}

/// One registration session's in-memory state.
pub struct RegistrationSession {
    /// How many inbound messages this session has accepted.
    pub num_messages_received: u8,
    /// The session's phase.
    pub phase: RegistrationPhase,
    /// Whether the terminal response has been produced.
    pub responded: bool,
}

/// What one step of the registration orchestrator produced.
pub enum RegistrationStep {
    /// An intermediate message to write back; the session continues.
    Send(RegistrationResponseData),
    /// The step needs the engine: run the request and feed the result to
    /// `registration_engine_step`.
    Engine(RegistrationEngineRequest),
    /// The terminal response; exactly one per session.
    Respond(Result<RegistrationResponseData, Status>),
}

impl RegistrationSession {
    /// Phase data is consistent with the message count.
    pub open spec fn wf(&self) -> bool {
        match self.phase {
            RegistrationPhase::AwaitingRequest => true,
            RegistrationPhase::StartPending { user_id } => self.num_messages_received == 1,
            RegistrationPhase::Challenged { user_id, registration_state } => self
                .num_messages_received == 1,
            RegistrationPhase::FinishPending { user_id } => self.num_messages_received == 2,
        }
    }

    /// A fresh session.
    pub fn new() -> (r: RegistrationSession)
        ensures
            r.wf(),
            r.num_messages_received == 0,
            r.phase matches RegistrationPhase::AwaitingRequest,
            !r.responded,
    {
        RegistrationSession {
            num_messages_received: 0,
            phase: RegistrationPhase::AwaitingRequest,
            responded: false,
        }
    }
}

/// The relation one registration message step satisfies.
pub open spec fn registration_message_transition(
    s0: IdentityStore,
    s1: IdentityStore,
    q0: RegistrationSession,
    q1: RegistrationSession,
    inbound: RegistrationInbound,
    r: RegistrationStep,
) -> bool {
    match inbound {
        RegistrationInbound::ReadError => {
            &&& r matches RegistrationStep::Respond(res) && res matches Err(st)
                && status_is(st, StatusCode::Unknown, "unknown error"@)
            &&& s1.regs() == s0.regs()
            &&& q1.phase == q0.phase && q1.num_messages_received == q0.num_messages_received
        },
        RegistrationInbound::Message(None) => {
            &&& r matches RegistrationStep::Respond(res) && res matches Err(st)
                && status_is(st, StatusCode::InvalidArgument, "invalid message"@)
            &&& s1.regs() == s0.regs()
            &&& q1.phase == q0.phase && q1.num_messages_received == q0.num_messages_received
        },
        RegistrationInbound::Message(
            Some(
                RegistrationRequestData::PakeRegistrationRequestAndUserId {
                    user_id,
                    pake_registration_request,
                },
            ),
        ) => {
            if q0.num_messages_received != 0 {
                &&& r matches RegistrationStep::Respond(res) && res matches Err(st)
                    && status_is(st, StatusCode::Aborted, "please retry"@)
                &&& s1.regs() == s0.regs()
                &&& q1.phase == q0.phase && q1.num_messages_received == q0.num_messages_received
            } else {
                &&& r matches RegistrationStep::Engine(e) && e matches
                    RegistrationEngineRequest::ServerRegistrationStart {
                        pake_registration_request: req_out,
                    } && req_out@ == pake_registration_request@
                &&& q1.phase matches RegistrationPhase::StartPending { user_id: u } && u@
                    == user_id@
                &&& q1.num_messages_received == 1
                &&& s1.regs() == s0.regs()
            }
        },
        RegistrationInbound::Message(
            Some(RegistrationRequestData::PakeRegistrationUpload(upload)),
        ) => {
            match q0.phase {
                RegistrationPhase::Challenged { user_id, registration_state } => {
                    &&& r matches RegistrationStep::Engine(e) && e matches
                        RegistrationEngineRequest::ServerRegistrationFinish {
                            registration_state: state_out,
                            pake_registration_upload: upload_out,
                        } && state_out@ == registration_state@ && upload_out@ == upload@
                    &&& q1.phase matches RegistrationPhase::FinishPending { user_id: u } && u@
                        == user_id@
                    &&& q1.num_messages_received == 2
                    &&& s1.regs() == s0.regs()
                },
                _ => {
                    &&& r matches RegistrationStep::Respond(res) && res matches Err(st)
                        && status_is(st, StatusCode::Aborted, "please retry"@)
                    &&& s1.regs() == s0.regs()
                    &&& q1.phase == q0.phase && q1.num_messages_received == q0.num_messages_received
                },
            }
        },
    }
}

/// Routes one inbound item of a registration stream.
pub fn registration_message_step(
    store: &mut IdentityStore,
    session: &mut RegistrationSession,
    inbound: RegistrationInbound,
) -> (r: RegistrationStep)
    requires
        old(store).wf(),
        old(session).wf(),
        !old(session).responded,
    ensures
        final(store).wf(),
        final(session).wf(),
        final(store).regs() == old(store).regs(),
        final(store).tokens() == old(store).tokens(),
        final(session).responded == (r matches RegistrationStep::Respond(_)),
        registration_message_transition(
            *old(store),
            *final(store),
            *old(session),
            *final(session),
            inbound,
            r,
        ),
{
    match inbound {
        RegistrationInbound::ReadError => {
            session.responded = true;
            RegistrationStep::Respond(Err(Status::new(StatusCode::Unknown, "unknown error")))
        },
        RegistrationInbound::Message(None) => {
            session.responded = true;
            RegistrationStep::Respond(
                Err(Status::new(StatusCode::InvalidArgument, "invalid message")),
            )
        },
        RegistrationInbound::Message(
            Some(
                RegistrationRequestData::PakeRegistrationRequestAndUserId {
                    user_id,
                    pake_registration_request,
                },
            ),
        ) => {
            if session.num_messages_received != 0 {
                session.responded = true;
                return RegistrationStep::Respond(
                    Err(Status::new(StatusCode::Aborted, "please retry")),
                );
            }
            session.phase = RegistrationPhase::StartPending { user_id };
            session.num_messages_received = 1;
            RegistrationStep::Engine(RegistrationEngineRequest::ServerRegistrationStart {
                pake_registration_request,
            })
        },
        RegistrationInbound::Message(
            Some(RegistrationRequestData::PakeRegistrationUpload(upload)),
        ) => {
            let challenged = matches!(session.phase, RegistrationPhase::Challenged { .. });
            if !challenged {
                session.responded = true;
                return RegistrationStep::Respond(
                    Err(Status::new(StatusCode::Aborted, "please retry")),
                );
            }
            let phase = core::mem::replace(
                &mut session.phase,
                RegistrationPhase::AwaitingRequest,
            );
            match phase {
                RegistrationPhase::Challenged { user_id, registration_state } => {
                    session.phase = RegistrationPhase::FinishPending { user_id };
                    session.num_messages_received = 2;
                    RegistrationStep::Engine(
                        RegistrationEngineRequest::ServerRegistrationFinish {
                            registration_state,
                            pake_registration_upload: upload,
                        },
                    )
                },
                _ => {
                    proof {
                        assert(false);
                    }
                    RegistrationStep::Respond(
                        Err(Status::new(StatusCode::Aborted, "please retry")),
                    )
                },
            }
        },
    }
}

/// The relation one registration engine step satisfies.
pub open spec fn registration_engine_transition(
    s0: IdentityStore,
    s1: IdentityStore,
    q0: RegistrationSession,
    q1: RegistrationSession,
    result: RegistrationEngineResult,
    r: RegistrationStep,
) -> bool {
    match q0.phase {
        RegistrationPhase::StartPending { user_id } => {
            match result {
                RegistrationEngineResult::StartOk {
                    pake_registration_response,
                    registration_state,
                } => {
                    &&& r matches RegistrationStep::Send(
                        RegistrationResponseData::PakeRegistrationResponse(resp),
                    ) && resp@ == pake_registration_response@
                    &&& q1.phase matches RegistrationPhase::Challenged {
                        user_id: u,
                        registration_state: st,
                    } && u@ == user_id@ && st@ == registration_state@
                    &&& q1.num_messages_received == q0.num_messages_received
                    &&& s1.regs() == s0.regs()
                },
                RegistrationEngineResult::Failed(_) => {
                    &&& r matches RegistrationStep::Respond(res) && res matches Err(st)
                        && status_is(st, StatusCode::InvalidArgument, "invalid message"@)
                    &&& s1.regs() == s0.regs()
                    &&& q1.phase == q0.phase && q1.num_messages_received == q0.num_messages_received
                },
                _ => false,
            }
        },
        RegistrationPhase::FinishPending { user_id } => {
            match result {
                RegistrationEngineResult::FinishOk { credential_record } => {
                    &&& r matches RegistrationStep::Respond(res) && (res matches Ok(
                        RegistrationResponseData::PakeRegistrationSuccess,
                    ))
                    &&& s1.regs() == s0.regs().insert(user_id@, credential_record@)
                },
                RegistrationEngineResult::Failed(_) => {
                    &&& r matches RegistrationStep::Respond(res) && res matches Err(st)
                        && status_is(st, StatusCode::InvalidArgument, "invalid message"@)
                    &&& s1.regs() == s0.regs()
                    &&& q1.phase == q0.phase && q1.num_messages_received == q0.num_messages_received
                },
                _ => false,
            }
        },
        _ => false,
    }
}

/// Feeds an engine result back into a registration session. A failure at
/// either step is an invalid argument; a finish success persists the
/// credential record, keyed by the session's user, overwriting any previous
/// record.
pub fn registration_engine_step(
    store: &mut IdentityStore,
    session: &mut RegistrationSession,
    result: RegistrationEngineResult,
) -> (r: RegistrationStep)
    requires
        old(store).wf(),
        old(session).wf(),
        !old(session).responded,
        (old(session).phase matches RegistrationPhase::StartPending { .. }) || (old(
            session,
        ).phase matches RegistrationPhase::FinishPending { .. }),
        old(session).phase matches RegistrationPhase::StartPending { .. } ==> !(result
            matches RegistrationEngineResult::FinishOk { .. }),
        old(session).phase matches RegistrationPhase::FinishPending { .. } ==> !(result
            matches RegistrationEngineResult::StartOk { .. }),
    ensures
        final(store).wf(),
        final(session).wf(),
        final(store).tokens() == old(store).tokens(),
        final(session).responded == (r matches RegistrationStep::Respond(_)),
        registration_engine_transition(
            *old(store),
            *final(store),
            *old(session),
            *final(session),
            result,
            r,
        ),
{
    let start_pending = matches!(session.phase, RegistrationPhase::StartPending { .. });
    if start_pending {
        match result {
            RegistrationEngineResult::StartOk {
                pake_registration_response,
                registration_state,
            } => {
                let phase = core::mem::replace(
                    &mut session.phase,
                    RegistrationPhase::AwaitingRequest,
                );
                match phase {
                    RegistrationPhase::StartPending { user_id } => {
                        session.phase = RegistrationPhase::Challenged {
                            user_id,
                            registration_state,
                        };
                        RegistrationStep::Send(
                            RegistrationResponseData::PakeRegistrationResponse(
                                pake_registration_response,
                            ),
                        )
                    },
                    _ => {
                        proof {
                            assert(false);
                        }
                        RegistrationStep::Respond(
                            Err(Status::new(StatusCode::InvalidArgument, "invalid message")),
                        )
                    },
                }
            },
            _ => {
                session.responded = true;
                RegistrationStep::Respond(
                    Err(Status::new(StatusCode::InvalidArgument, "invalid message")),
                )
            },
        }
    } else {
        match result {
            RegistrationEngineResult::FinishOk { credential_record } => {
                let user_id = match &session.phase {
                    RegistrationPhase::FinishPending { user_id } => user_id.clone(),
                    _ => {
                        proof {
                            assert(false);
                        }
                        String::new()
                    },
                };
                session.responded = true;
                store.put_pake_registration(user_id, credential_record);
                RegistrationStep::Respond(Ok(RegistrationResponseData::PakeRegistrationSuccess))
            },
            _ => {
                session.responded = true;
                RegistrationStep::Respond(
                    Err(Status::new(StatusCode::InvalidArgument, "invalid message")),
                )
            },
        }
    }
}

/// Terminates a registration session when a durable-store operation backing
/// it fails. The failure kind becomes the session's terminal response under
/// the external vocabulary: misconfiguration is a failed precondition, a
/// transient failure is retryable; retry policy belongs to the caller.
pub fn registration_store_failure_step(
    session: &mut RegistrationSession,
    kind: StoreErrorKind,
) -> (r: RegistrationStep)
    requires
        old(session).wf(),
        !old(session).responded,
    ensures
        final(session).wf(),
        final(session).responded,
        final(session).phase == old(session).phase,
        final(session).num_messages_received == old(session).num_messages_received,
        r matches RegistrationStep::Respond(res) && res matches Err(st)
            && spec_store_error_status(kind, st),
{
    session.responded = true;
    RegistrationStep::Respond(Err(store_error_status(kind)))
}

} // verus!
